//! Cell states and the per-cell transition rule.

use vstd::prelude::*;

verus! {

/// State of one cell, listed in the order in which a fire progresses.
#[derive(PartialEq, Eq, Structural, Clone, Copy, Debug)]
pub enum Etat {
    /// Rock: never changes.
    Pierre,
    /// Ash: bare ground where a young tree may grow.
    Cendres,
    /// Young tree.
    Jeune,
    /// Old tree.
    Ancien,
    /// A fire that has just started.
    DebutFeu,
    /// A fire burning at full strength.
    Feu,
    /// A fire dying out.
    FinFeu,
}

/// Random draws are integers taken uniformly in `0..ECHELLE`. A draw `t`
/// succeeds against a probability `p` when `t < p * ECHELLE`: each threshold
/// below is such a product.
pub const ECHELLE: u32 = 100000;

/// Ash becomes a young tree: probability 0.001.
pub const P_POUSSE: u32 = 100;

/// A young tree catches fire from a neighbouring starting fire: 0.01.
pub const P_JEUNE_DEBUT_FEU: u32 = 1000;

/// A young tree catches fire from a neighbouring full fire: 0.02.
pub const P_JEUNE_FEU: u32 = 2000;

/// A young tree catches fire from a neighbouring dying fire: 0.01.
pub const P_JEUNE_FIN_FEU: u32 = 1000;

/// A young tree becomes old: 0.005.
pub const P_VIEILLISSEMENT: u32 = 500;

/// An old tree catches fire from a neighbouring starting fire: 0.1.
pub const P_ANCIEN_DEBUT_FEU: u32 = 10000;

/// An old tree catches fire from a neighbouring full fire: 0.2.
pub const P_ANCIEN_FEU: u32 = 20000;

/// An old tree catches fire from a neighbouring dying fire: 0.1.
pub const P_ANCIEN_FIN_FEU: u32 = 10000;

/// An old tree among enough old neighbours ignites by itself: 0.00005.
pub const P_COMBUSTION: u32 = 5;

/// How many old neighbours an old tree needs to ignite by itself.
pub const SEUIL_ANCIENS: usize = 5;

/// A fire moves on to its next stage: 0.1.
pub const P_PROGRESSION: u32 = 10000;

/// Number of times `e` occurs in `v`.
pub open spec fn nb_egaux(v: Seq<Etat>, e: Etat) -> nat
    decreases v.len(),
{
    if v.len() == 0 {
        0
    } else {
        nb_egaux(v.drop_last(), e) + if v.last() == e { 1nat } else { 0nat }
    }
}

/// The stage that follows a fire stage; other states are returned as they are.
pub open spec fn stade_suivant(e: Etat) -> Etat {
    match e {
        Etat::DebutFeu => Etat::Feu,
        Etat::Feu => Etat::FinFeu,
        Etat::FinFeu => Etat::Cendres,
        _ => e,
    }
}

/// The transition rule: the next state of a cell in state `e` whose
/// neighbours are `v`, given one draw per branch in `t` (the i-th test of a
/// state's rule reads `t[i]`). The first branch whose draw and neighbour
/// condition both hold decides.
pub open spec fn regle(e: Etat, v: Seq<Etat>, t: Seq<u32>) -> Etat {
    match e {
        Etat::Pierre => Etat::Pierre,
        Etat::Cendres => if t[0] < P_POUSSE {
            Etat::Jeune
        } else {
            Etat::Cendres
        },
        Etat::Jeune => if t[0] < P_JEUNE_DEBUT_FEU && v.contains(Etat::DebutFeu) {
            Etat::DebutFeu
        } else if t[1] < P_JEUNE_FEU && v.contains(Etat::Feu) {
            Etat::DebutFeu
        } else if t[2] < P_JEUNE_FIN_FEU && v.contains(Etat::FinFeu) {
            Etat::DebutFeu
        } else if t[3] < P_VIEILLISSEMENT {
            Etat::Ancien
        } else {
            Etat::Jeune
        },
        Etat::Ancien => if t[0] < P_ANCIEN_DEBUT_FEU && v.contains(Etat::DebutFeu) {
            Etat::DebutFeu
        } else if t[1] < P_ANCIEN_FEU && v.contains(Etat::Feu) {
            Etat::DebutFeu
        } else if t[2] < P_ANCIEN_FIN_FEU && v.contains(Etat::FinFeu) {
            Etat::DebutFeu
        } else if t[3] < P_COMBUSTION && nb_egaux(v, Etat::Ancien) >= SEUIL_ANCIENS {
            Etat::DebutFeu
        } else {
            Etat::Ancien
        },
        Etat::DebutFeu | Etat::Feu | Etat::FinFeu => if t[0] < P_PROGRESSION {
            stade_suivant(e)
        } else {
            e
        },
    }
}

/// Whether `e` occurs in `v`.
pub fn contient(v: &Vec<Etat>, e: Etat) -> (r: bool)
    ensures
        r == v@.contains(e),
{
    let mut k: usize = 0;
    while k < v.len()
        invariant
            k <= v.len(),
            forall|x: int| 0 <= x < k ==> v@[x] != e,
        decreases v.len() - k,
    {
        if v[k] == e {
            assert(v@[k as int] == e);
            return true;
        }
        k += 1;
    }
    false
}

/// Number of times `e` occurs in `v`.
pub fn compter(v: &Vec<Etat>, e: Etat) -> (r: usize)
    ensures
        r == nb_egaux(v@, e),
{
    let mut c: usize = 0;
    let mut k: usize = 0;
    while k < v.len()
        invariant
            k <= v.len(),
            c <= k,
            c == nb_egaux(v@.take(k as int), e),
        decreases v.len() - k,
    {
        assert(v@.take(k + 1).drop_last() =~= v@.take(k as int));
        if v[k] == e {
            c += 1;
        }
        k += 1;
    }
    assert(v@.take(v.len() as int) =~= v@);
    c
}

/// The next state of a cell in state `e` with neighbours `voisins`, each
/// branch of the rule reading its own draw from `tirages`.
pub fn etat_suivant(e: Etat, voisins: &Vec<Etat>, tirages: &[u32; 4]) -> (r: Etat)
    ensures
        r == regle(e, voisins@, tirages@),
{
    match e {
        Etat::Pierre => Etat::Pierre,
        Etat::Cendres => if tirages[0] < P_POUSSE {
            Etat::Jeune
        } else {
            Etat::Cendres
        },
        Etat::Jeune => if tirages[0] < P_JEUNE_DEBUT_FEU && contient(voisins, Etat::DebutFeu) {
            Etat::DebutFeu
        } else if tirages[1] < P_JEUNE_FEU && contient(voisins, Etat::Feu) {
            Etat::DebutFeu
        } else if tirages[2] < P_JEUNE_FIN_FEU && contient(voisins, Etat::FinFeu) {
            Etat::DebutFeu
        } else if tirages[3] < P_VIEILLISSEMENT {
            Etat::Ancien
        } else {
            Etat::Jeune
        },
        Etat::Ancien => if tirages[0] < P_ANCIEN_DEBUT_FEU && contient(voisins, Etat::DebutFeu) {
            Etat::DebutFeu
        } else if tirages[1] < P_ANCIEN_FEU && contient(voisins, Etat::Feu) {
            Etat::DebutFeu
        } else if tirages[2] < P_ANCIEN_FIN_FEU && contient(voisins, Etat::FinFeu) {
            Etat::DebutFeu
        } else if tirages[3] < P_COMBUSTION && compter(voisins, Etat::Ancien) >= SEUIL_ANCIENS {
            Etat::DebutFeu
        } else {
            Etat::Ancien
        },
        Etat::DebutFeu => if tirages[0] < P_PROGRESSION {
            Etat::Feu
        } else {
            Etat::DebutFeu
        },
        Etat::Feu => if tirages[0] < P_PROGRESSION {
            Etat::FinFeu
        } else {
            Etat::Feu
        },
        Etat::FinFeu => if tirages[0] < P_PROGRESSION {
            Etat::Cendres
        } else {
            Etat::FinFeu
        },
    }
}

/// The state numbered `k` in the order of `Etat`'s variants, from rock (0) to
/// a dying fire (6).
pub fn etat_de_rang(k: u32) -> (r: Etat)
    requires
        k < 7,
    ensures
        r == rang_etat(k as int),
{
    match k {
        0 => Etat::Pierre,
        1 => Etat::Cendres,
        2 => Etat::Jeune,
        3 => Etat::Ancien,
        4 => Etat::DebutFeu,
        5 => Etat::Feu,
        _ => Etat::FinFeu,
    }
}

/// The state numbered `k` in the order of `Etat`'s variants.
pub open spec fn rang_etat(k: int) -> Etat {
    if k == 0 {
        Etat::Pierre
    } else if k == 1 {
        Etat::Cendres
    } else if k == 2 {
        Etat::Jeune
    } else if k == 3 {
        Etat::Ancien
    } else if k == 4 {
        Etat::DebutFeu
    } else if k == 5 {
        Etat::Feu
    } else {
        Etat::FinFeu
    }
}

} // verus!
