//! Laws of the automaton, proved from the rule and the step's contract.

use crate::etat::{nb_egaux, regle, stade_suivant, Etat, ECHELLE, P_PROGRESSION, SEUIL_ANCIENS};
use crate::foret::VueForet;
use vstd::prelude::*;

verus! {

/// The states that a cell in state `e` may pass to in one generation.
pub open spec fn transition_permise(e: Etat, r: Etat) -> bool {
    match e {
        Etat::Pierre => r == Etat::Pierre,
        Etat::Cendres => r == Etat::Cendres || r == Etat::Jeune,
        Etat::Jeune => r == Etat::Jeune || r == Etat::Ancien || r == Etat::DebutFeu,
        Etat::Ancien => r == Etat::Ancien || r == Etat::DebutFeu,
        Etat::DebutFeu | Etat::Feu | Etat::FinFeu => r == e || r == stade_suivant(e),
    }
}

/// The rule is total: for every state, neighbourhood and draws it yields one
/// of the seven states, and one that the cell's state may pass to.
pub proof fn lemme_regle_totale(e: Etat, v: Seq<Etat>, t: Seq<u32>)
    ensures
        transition_permise(e, regle(e, v, t)),
        ({
            let r = regle(e, v, t);
            r == Etat::Pierre || r == Etat::Cendres || r == Etat::Jeune || r == Etat::Ancien
                || r == Etat::DebutFeu || r == Etat::Feu || r == Etat::FinFeu
        }),
{
}

/// Rock is absorbing: whatever the neighbours and the draws, rock stays rock.
pub proof fn lemme_pierre_absorbante(v: Seq<Etat>, t: Seq<u32>)
    ensures
        regle(Etat::Pierre, v, t) == Etat::Pierre,
{
}

/// A fire stage either stays as it is or moves on to the next stage of the
/// chain starting fire, fire, dying fire, ash, never back. It moves on exactly
/// when its draw falls under a tenth of the draws' range, so it stays with
/// probability 0.9.
pub proof fn lemme_chaine_feu(e: Etat, v: Seq<Etat>, t: Seq<u32>)
    requires
        e == Etat::DebutFeu || e == Etat::Feu || e == Etat::FinFeu,
    ensures
        stade_suivant(Etat::DebutFeu) == Etat::Feu,
        stade_suivant(Etat::Feu) == Etat::FinFeu,
        stade_suivant(Etat::FinFeu) == Etat::Cendres,
        regle(e, v, t) == e || regle(e, v, t) == stade_suivant(e),
        regle(e, v, t) == stade_suivant(e) <==> t[0] < P_PROGRESSION,
        stade_suivant(e) != e,
        10 * P_PROGRESSION == ECHELLE,
{
}

/// A young or old tree catches fire only where its neighbourhood allows it:
/// a fire stage among its neighbours, or, for an old tree, enough old
/// neighbours. This holds whatever the draws, even when every draw succeeds.
pub proof fn lemme_allumage_par_voisins(e: Etat, v: Seq<Etat>, t: Seq<u32>)
    requires
        e == Etat::Jeune || e == Etat::Ancien,
        regle(e, v, t) == Etat::DebutFeu,
    ensures
        v.contains(Etat::DebutFeu) || v.contains(Etat::Feu) || v.contains(Etat::FinFeu) || (e
            == Etat::Ancien && nb_egaux(v, Etat::Ancien) >= SEUIL_ANCIENS),
{
}

/// Advancing a generation is a function of the current generation and the
/// draws: two forests with the same current generation (whatever their
/// staging ones) advanced with the same draws end up identical.
pub proof fn lemme_iteration_deterministe(
    a: VueForet,
    b: VueForet,
    d: Seq<Vec<[u32; 4]>>,
    a2: VueForet,
    b2: VueForet,
)
    requires
        a.bien_formee(),
        b.bien_formee(),
        a.m == b.m,
        a.n == b.n,
        a.actuel == b.actuel,
        a.generation_suivante(a2, d),
        b.generation_suivante(b2, d),
    ensures
        a2 == b2,
{
    assert forall|i: int| 0 <= i < a2.m implies #[trigger] a2.actuel[i] =~= b2.actuel[i] by {
        assert forall|j: int| 0 <= j < a2.n implies a2.actuel[i][j] == b2.actuel[i][j] by {
            assert(a2.cellule(i, j) == a.cellule_suivante(d, i, j));
            assert(b2.cellule(i, j) == b.cellule_suivante(d, i, j));
        }
    }
    assert(a2.actuel =~= b2.actuel);
}

} // verus!
