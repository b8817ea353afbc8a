//! The forest: two generations of cells and the step that advances them.

use crate::etat::{etat_de_rang, etat_suivant, regle, Etat, ECHELLE};
use crate::hasard::tirer;
use rand::rngs::StdRng;
use vstd::prelude::*;

verus! {

/// A forest of `m` rows and `n` columns holding two generations of cells:
/// `arbres`, the current one, and `temp`, where the next one is computed.
/// Only interior cells ever change: border cells keep their first state.
pub struct Foret {
    m: usize,
    n: usize,
    arbres: Vec<Vec<Etat>>,
    temp: Vec<Vec<Etat>>,
}

/// What a forest holds: its dimensions, its current generation and its
/// staging generation, each a sequence of rows.
pub struct VueForet {
    pub m: nat,
    pub n: nat,
    pub actuel: Seq<Seq<Etat>>,
    pub suivant: Seq<Seq<Etat>>,
}

impl VueForet {
    /// `(i, j)` is a cell of the forest.
    pub open spec fn dans(self, i: int, j: int) -> bool {
        0 <= i < self.m && 0 <= j < self.n
    }

    /// `(i, j)` is an interior cell: off the border, with eight neighbours.
    pub open spec fn interieur(self, i: int, j: int) -> bool {
        1 <= i < self.m - 1 && 1 <= j < self.n - 1
    }

    /// The current state of cell `(i, j)`.
    pub open spec fn cellule(self, i: int, j: int) -> Etat {
        self.actuel[i][j]
    }

    /// The eight neighbours of `(i, j)` in the current generation, row by row.
    pub open spec fn voisins(self, i: int, j: int) -> Seq<Etat> {
        seq![
            self.cellule(i - 1, j - 1),
            self.cellule(i - 1, j),
            self.cellule(i - 1, j + 1),
            self.cellule(i, j - 1),
            self.cellule(i, j + 1),
            self.cellule(i + 1, j - 1),
            self.cellule(i + 1, j),
            self.cellule(i + 1, j + 1),
        ]
    }

    /// Both generations have `m` rows of `n` cells, there is an interior, and
    /// the two generations agree on the border.
    pub open spec fn bien_formee(self) -> bool {
        &&& self.m >= 3
        &&& self.n >= 3
        &&& self.actuel.len() == self.m
        &&& self.suivant.len() == self.m
        &&& forall|i: int| 0 <= i < self.m ==> #[trigger] self.actuel[i].len() == self.n
        &&& forall|i: int| 0 <= i < self.m ==> #[trigger] self.suivant[i].len() == self.n
        &&& forall|i: int, j: int|
            self.dans(i, j) && !self.interieur(i, j) ==> #[trigger] self.suivant[i][j]
                == self.actuel[i][j]
    }

    /// Same dimensions as `avant`, and the same border cells in both
    /// generations.
    pub open spec fn meme_bord(self, avant: VueForet) -> bool {
        &&& self.m == avant.m
        &&& self.n == avant.n
        &&& forall|i: int, j: int|
            self.dans(i, j) && !self.interieur(i, j) ==> #[trigger] self.actuel[i][j]
                == avant.actuel[i][j] && self.suivant[i][j] == avant.suivant[i][j]
    }

    /// `e` holds one state per interior cell, in one row per interior row.
    pub open spec fn etats_formes(self, e: Seq<Vec<Etat>>) -> bool {
        &&& e.len() == self.m - 2
        &&& forall|r: int| 0 <= r < e.len() ==> #[trigger] e[r]@.len() == self.n - 2
    }

    /// Every interior cell of `apres` holds, in both generations, the state
    /// that `etats` gives it.
    pub open spec fn interieur_rempli(self, apres: VueForet, etats: Seq<Vec<Etat>>) -> bool {
        forall|i: int, j: int|
            self.interieur(i, j) ==> #[trigger] apres.actuel[i][j] == etats[i - 1]@[j - 1]
                && apres.suivant[i][j] == etats[i - 1]@[j - 1]
    }

    /// `d` holds the draws of one generation: one row per interior row, one
    /// group of four draws per interior cell.
    pub open spec fn tirages_formes(self, d: Seq<Vec<[u32; 4]>>) -> bool {
        &&& d.len() == self.m - 2
        &&& forall|r: int| 0 <= r < d.len() ==> #[trigger] d[r]@.len() == self.n - 2
    }

    /// `d` holds the draws of one generation, each in `0..ECHELLE`.
    pub open spec fn tirages_valides(self, d: Seq<Vec<[u32; 4]>>) -> bool {
        &&& self.tirages_formes(d)
        &&& forall|r: int, c: int, k: int|
            0 <= r < d.len() && 0 <= c < d[r]@.len() && 0 <= k < 4 ==> #[trigger] d[r]@[c]@[k]
                < ECHELLE
    }

    /// The next state of cell `(i, j)` with draws `d`: the rule applied to its
    /// current state and neighbours for an interior cell, its current state
    /// for a border cell.
    pub open spec fn cellule_suivante(self, d: Seq<Vec<[u32; 4]>>, i: int, j: int) -> Etat {
        if self.interieur(i, j) {
            regle(self.cellule(i, j), self.voisins(i, j), d[i - 1]@[j - 1]@)
        } else {
            self.cellule(i, j)
        }
    }

    /// `apres` is the generation that follows `self` with draws `d`: each of
    /// its cells holds the next state computed from `self`'s current
    /// generation alone, and `self`'s current generation has become the
    /// staging one.
    pub open spec fn generation_suivante(self, apres: VueForet, d: Seq<Vec<[u32; 4]>>) -> bool {
        &&& apres.bien_formee()
        &&& apres.m == self.m
        &&& apres.n == self.n
        &&& forall|i: int, j: int|
            self.dans(i, j) ==> #[trigger] apres.cellule(i, j) == self.cellule_suivante(d, i, j)
        &&& apres.suivant == self.actuel
    }
}

impl View for Foret {
    type V = VueForet;

    closed spec fn view(&self) -> VueForet {
        VueForet {
            m: self.m as nat,
            n: self.n as nat,
            actuel: self.arbres@.map_values(|r: Vec<Etat>| r@),
            suivant: self.temp@.map_values(|r: Vec<Etat>| r@),
        }
    }
}

/// A row of `n` cells, all in state `e`.
fn ligne_uniforme(n: usize, e: Etat) -> (r: Vec<Etat>)
    ensures
        r@.len() == n,
        forall|c: int| 0 <= c < n ==> #[trigger] r@[c] == e,
{
    let mut r: Vec<Etat> = Vec::new();
    for c in 0..n
        invariant
            r@.len() == c,
            forall|k: int| 0 <= k < c ==> #[trigger] r@[k] == e,
    {
        r.push(e);
    }
    r
}

/// The row `bord` with its interior cells replaced by `milieu`, in order.
fn ligne_interieur(bord: &Vec<Etat>, milieu: &Vec<Etat>) -> (r: Vec<Etat>)
    requires
        bord@.len() == milieu@.len() + 2,
    ensures
        r@.len() == bord@.len(),
        r@[0] == bord@[0],
        r@[r@.len() - 1] == bord@[bord@.len() - 1],
        forall|c: int| 1 <= c < r@.len() - 1 ==> #[trigger] r@[c] == milieu@[c - 1],
{
    let mut r: Vec<Etat> = Vec::new();
    r.push(bord[0]);
    for k in 0..milieu.len()
        invariant
            r@.len() == k + 1,
            r@[0] == bord@[0],
            forall|c: int| 1 <= c <= k ==> #[trigger] r@[c] == milieu@[c - 1],
    {
        r.push(milieu[k]);
    }
    r.push(bord[bord.len() - 1]);
    r
}

impl Foret {
    /// A forest of `m` rows and `n` columns whose cells are all rock, in both
    /// generations; `None` where a dimension is under 3, which leaves no
    /// interior.
    pub fn new(m: usize, n: usize) -> (r: Option<Foret>)
        ensures
            r.is_none() <==> (m < 3 || n < 3),
            r matches Some(f) ==> {
                &&& f@.bien_formee()
                &&& f@.m == m
                &&& f@.n == n
                &&& forall|i: int, j: int|
                    f@.dans(i, j) ==> #[trigger] f@.actuel[i][j] == Etat::Pierre && f@.suivant[i][j]
                        == Etat::Pierre
            },
    {
        if m < 3 || n < 3 {
            return None;
        }
        let mut arbres: Vec<Vec<Etat>> = Vec::new();
        let mut temp: Vec<Vec<Etat>> = Vec::new();
        for i in 0..m
            invariant
                arbres@.len() == i,
                temp@.len() == i,
                forall|k: int| 0 <= k < i ==> (#[trigger] arbres@[k])@.len() == n,
                forall|k: int| 0 <= k < i ==> (#[trigger] temp@[k])@.len() == n,
                forall|k: int, c: int|
                    0 <= k < i && 0 <= c < n ==> #[trigger] arbres@[k]@[c] == Etat::Pierre,
                forall|k: int, c: int|
                    0 <= k < i && 0 <= c < n ==> #[trigger] temp@[k]@[c] == Etat::Pierre,
        {
            arbres.push(ligne_uniforme(n, Etat::Pierre));
            temp.push(ligne_uniforme(n, Etat::Pierre));
        }
        let f = Foret { m, n, arbres, temp };
        Some(f)
    }

    /// Number of rows.
    pub fn m(&self) -> (r: usize)
        ensures
            r == self@.m,
    {
        self.m
    }

    /// Number of columns.
    pub fn n(&self) -> (r: usize)
        ensures
            r == self@.n,
    {
        self.n
    }

    /// The current state of cell `(i, j)`.
    pub fn etat(&self, i: usize, j: usize) -> (r: Etat)
        requires
            self@.bien_formee(),
            self@.dans(i as int, j as int),
        ensures
            r == self@.cellule(i as int, j as int),
    {
        self.arbres[i][j]
    }

    /// Ties the rows of the two vectors to the view's generations.
    proof fn lemme_lignes(&self)
        requires
            self@.bien_formee(),
        ensures
            self.arbres@.len() == self.m,
            self.temp@.len() == self.m,
            forall|i: int| 0 <= i < self.m ==> (#[trigger] self.arbres@[i])@ == self@.actuel[i],
            forall|i: int| 0 <= i < self.m ==> (#[trigger] self.temp@[i])@ == self@.suivant[i],
            forall|i: int| 0 <= i < self.m ==> (#[trigger] self.arbres@[i])@.len() == self.n,
            forall|i: int| 0 <= i < self.m ==> (#[trigger] self.temp@[i])@.len() == self.n,
    {
        assert forall|i: int| 0 <= i < self.m implies (#[trigger] self.arbres@[i])@.len() == self.n by {
            assert(self@.actuel[i].len() == self.n);
        }
        assert forall|i: int| 0 <= i < self.m implies (#[trigger] self.temp@[i])@.len() == self.n by {
            assert(self@.suivant[i].len() == self.n);
        }
    }

    /// Exchanges the current and staging generations.
    pub fn echanger_arbres(&mut self)
        ensures
            final(self)@.m == old(self)@.m,
            final(self)@.n == old(self)@.n,
            final(self)@.actuel == old(self)@.suivant,
            final(self)@.suivant == old(self)@.actuel,
            old(self)@.bien_formee() ==> final(self)@.bien_formee(),
    {
        std::mem::swap(&mut self.arbres, &mut self.temp);
    }

    /// The eight neighbours of interior cell `(i, j)` in the current
    /// generation, row by row.
    pub fn recuperer_voisins(&self, i: usize, j: usize) -> (r: Vec<Etat>)
        requires
            self@.bien_formee(),
            self@.interieur(i as int, j as int),
        ensures
            r@ == self@.voisins(i as int, j as int),
    {
        proof {
            self.lemme_lignes();
        }
        let mut r: Vec<Etat> = Vec::new();
        r.push(self.arbres[i - 1][j - 1]);
        r.push(self.arbres[i - 1][j]);
        r.push(self.arbres[i - 1][j + 1]);
        r.push(self.arbres[i][j - 1]);
        r.push(self.arbres[i][j + 1]);
        r.push(self.arbres[i + 1][j - 1]);
        r.push(self.arbres[i + 1][j]);
        r.push(self.arbres[i + 1][j + 1]);
        assert(r@ =~= self@.voisins(i as int, j as int));
        r
    }

    /// The next state of interior cell `(i, j)`, each branch of the rule
    /// reading its own draw from `tirages`.
    pub fn nouvel_etat(&self, i: usize, j: usize, tirages: &[u32; 4]) -> (r: Etat)
        requires
            self@.bien_formee(),
            self@.interieur(i as int, j as int),
        ensures
            r == regle(self@.cellule(i as int, j as int), self@.voisins(i as int, j as int), tirages@),
    {
        proof {
            self.lemme_lignes();
        }
        let voisins = self.recuperer_voisins(i, j);
        etat_suivant(self.arbres[i][j], &voisins, tirages)
    }

    /// Replaces the interior of row `i` in both generations by `milieu`.
    fn remplir_ligne(&mut self, i: usize, milieu: &Vec<Etat>)
        requires
            old(self)@.bien_formee(),
            1 <= i < old(self)@.m - 1,
            milieu@.len() + 2 == old(self)@.n,
        ensures
            final(self)@.bien_formee(),
            final(self)@.meme_bord(old(self)@),
            forall|r: int, c: int|
                0 <= r < final(self)@.m && r != i && 0 <= c < final(self)@.n ==> #[trigger] final(self)@.actuel[r][c]
                    == old(self)@.actuel[r][c] && final(self)@.suivant[r][c] == old(self)@.suivant[r][c],
            forall|c: int|
                1 <= c < final(self)@.n - 1 ==> #[trigger] final(self)@.actuel[i as int][c] == milieu@[c - 1]
                    && final(self)@.suivant[i as int][c] == milieu@[c - 1],
    {
        proof {
            self.lemme_lignes();
        }
        let a = ligne_interieur(&self.arbres[i], milieu);
        let t = ligne_interieur(&self.temp[i], milieu);
        self.arbres.set(i, a);
        self.temp.set(i, t);
    }

    /// Sets every interior cell to `etat` in both generations; the border is
    /// left as it was.
    pub fn init_etat(&mut self, etat: Etat)
        requires
            old(self)@.bien_formee(),
        ensures
            final(self)@.bien_formee(),
            final(self)@.meme_bord(old(self)@),
            forall|i: int, j: int|
                old(self)@.interieur(i, j) ==> #[trigger] final(self)@.actuel[i][j] == etat
                    && final(self)@.suivant[i][j] == etat,
    {
        let ghost avant = self@;
        let m = self.m;
        let milieu = ligne_uniforme(self.n - 2, etat);
        for i in 1..m - 1
            invariant
                self@.bien_formee(),
                self@.meme_bord(avant),
                self.m == m,
                avant.m == m,
                milieu@.len() + 2 == avant.n,
                forall|c: int| 0 <= c < milieu@.len() ==> #[trigger] milieu@[c] == etat,
                forall|r: int, c: int|
                    1 <= r < i && 1 <= c < avant.n - 1 ==> #[trigger] self@.actuel[r][c] == etat
                        && self@.suivant[r][c] == etat,
        {
            self.remplir_ligne(i, &milieu);
        }
    }

    /// Sets interior cell `(i, j)` to `etats[i - 1][j - 1]` in both
    /// generations; the border is left as it was.
    pub fn init_etats(&mut self, etats: &Vec<Vec<Etat>>)
        requires
            old(self)@.bien_formee(),
            old(self)@.etats_formes(etats@),
        ensures
            final(self)@.bien_formee(),
            final(self)@.meme_bord(old(self)@),
            old(self)@.interieur_rempli(final(self)@, etats@),
    {
        let ghost avant = self@;
        let m = self.m;
        for i in 1..m - 1
            invariant
                self@.bien_formee(),
                self@.meme_bord(avant),
                self.m == m,
                avant.m == m,
                avant.etats_formes(etats@),
                forall|r: int, c: int|
                    1 <= r < i && 1 <= c < avant.n - 1 ==> #[trigger] self@.actuel[r][c]
                        == etats@[r - 1]@[c - 1] && self@.suivant[r][c] == etats@[r - 1]@[c - 1],
        {
            self.remplir_ligne(i, &etats[i - 1]);
        }
    }

    /// Sets every interior cell to a state drawn uniformly among the seven,
    /// independently for each cell, the same in both generations; the border
    /// is left as it was.
    pub fn init_alea(&mut self, rng: &mut StdRng)
        requires
            old(self)@.bien_formee(),
        ensures
            final(self)@.bien_formee(),
            final(self)@.meme_bord(old(self)@),
            exists|etats: Seq<Vec<Etat>>|
                old(self)@.etats_formes(etats) && #[trigger] old(self)@.interieur_rempli(
                    final(self)@,
                    etats,
                ),
    {
        let m = self.m;
        let n = self.n;
        let mut etats: Vec<Vec<Etat>> = Vec::new();
        for i in 1..m - 1
            invariant
                n >= 3,
                etats@.len() == i - 1,
                forall|r: int| 0 <= r < etats@.len() ==> #[trigger] etats@[r]@.len() == n - 2,
        {
            let mut ligne: Vec<Etat> = Vec::new();
            for c in 1..n - 1
                invariant
                    n >= 3,
                    ligne@.len() == c - 1,
            {
                ligne.push(etat_de_rang(tirer(rng, 7)));
            }
            etats.push(ligne);
        }
        self.init_etats(&etats);
        assert(old(self)@.interieur_rempli(self@, etats@));
    }

    /// The next states of the interior cells of row `i`, left to right.
    fn etats_suivants(&self, i: usize, tirages: &Vec<Vec<[u32; 4]>>) -> (r: Vec<Etat>)
        requires
            self@.bien_formee(),
            1 <= i < self@.m - 1,
            self@.tirages_formes(tirages@),
        ensures
            r@.len() + 2 == self@.n,
            forall|c: int|
                0 <= c < r@.len() ==> #[trigger] r@[c] == self@.cellule_suivante(
                    tirages@,
                    i as int,
                    c + 1,
                ),
    {
        let n = self.n;
        let mut r: Vec<Etat> = Vec::new();
        for j in 1..n - 1
            invariant
                self@.bien_formee(),
                self@.n == n,
                1 <= i < self@.m - 1,
                self@.tirages_formes(tirages@),
                r@.len() == j - 1,
                forall|c: int|
                    0 <= c < r@.len() ==> #[trigger] r@[c] == self@.cellule_suivante(
                        tirages@,
                        i as int,
                        c + 1,
                    ),
        {
            let e = self.nouvel_etat(i, j, &tirages[i - 1][j - 1]);
            r.push(e);
        }
        r
    }

    /// Advances the forest one generation with the draws `tirages`: every
    /// interior cell's next state is computed from the current generation
    /// alone into the staging generation, and the two are then exchanged.
    pub fn iteration_avec_tirages(&mut self, tirages: &Vec<Vec<[u32; 4]>>)
        requires
            old(self)@.bien_formee(),
            old(self)@.tirages_formes(tirages@),
        ensures
            old(self)@.generation_suivante(final(self)@, tirages@),
    {
        let ghost avant = self@;
        let m = self.m;
        for i in 1..m - 1
            invariant
                self@.bien_formee(),
                self.m == m,
                avant.m == m,
                self@.n == avant.n,
                self@.actuel == avant.actuel,
                avant.bien_formee(),
                avant.tirages_formes(tirages@),
                forall|r: int, c: int|
                    1 <= r < i && 0 <= c < avant.n ==> #[trigger] self@.suivant[r][c]
                        == avant.cellule_suivante(tirages@, r, c),
                forall|r: int, c: int|
                    (r == 0 || i <= r < m) && 0 <= c < avant.n ==> #[trigger] self@.suivant[r][c]
                        == avant.suivant[r][c],
        {
            proof {
                self.lemme_lignes();
            }
            let milieu = self.etats_suivants(i, tirages);
            let t = ligne_interieur(&self.temp[i], &milieu);
            self.temp.set(i, t);
        }
        self.echanger_arbres();
    }

    /// Advances the forest one generation, drawing four values uniformly in
    /// `0..ECHELLE` from `rng` for each interior cell.
    pub fn iteration_suivante(&mut self, rng: &mut StdRng)
        requires
            old(self)@.bien_formee(),
        ensures
            exists|d: Seq<Vec<[u32; 4]>>|
                old(self)@.tirages_valides(d) && #[trigger] old(self)@.generation_suivante(
                    final(self)@,
                    d,
                ),
    {
        let tirages = tirer_generation(self.m, self.n, rng);
        self.iteration_avec_tirages(&tirages);
        assert(old(self)@.generation_suivante(self@, tirages@));
    }
}

/// The draws of one generation of an `m` by `n` forest, taken from `rng`.
fn tirer_generation(m: usize, n: usize, rng: &mut StdRng) -> (r: Vec<Vec<[u32; 4]>>)
    requires
        m >= 3,
        n >= 3,
    ensures
        r@.len() == m - 2,
        forall|i: int| 0 <= i < r@.len() ==> #[trigger] r@[i]@.len() == n - 2,
        forall|i: int, c: int, k: int|
            0 <= i < r@.len() && 0 <= c < r@[i]@.len() && 0 <= k < 4 ==> #[trigger] r@[i]@[c]@[k]
                < ECHELLE,
{
    let mut r: Vec<Vec<[u32; 4]>> = Vec::new();
    for i in 1..m - 1
        invariant
            n >= 3,
            r@.len() == i - 1,
            forall|x: int| 0 <= x < r@.len() ==> #[trigger] r@[x]@.len() == n - 2,
            forall|x: int, c: int, k: int|
                0 <= x < r@.len() && 0 <= c < r@[x]@.len() && 0 <= k < 4 ==> #[trigger] r@[x]@[c]@[k]
                    < ECHELLE,
    {
        let mut ligne: Vec<[u32; 4]> = Vec::new();
        for j in 1..n - 1
            invariant
                n >= 3,
                ligne@.len() == j - 1,
                forall|c: int, k: int|
                    0 <= c < ligne@.len() && 0 <= k < 4 ==> #[trigger] ligne@[c]@[k] < ECHELLE,
        {
            let t: [u32; 4] = [
                tirer(rng, ECHELLE),
                tirer(rng, ECHELLE),
                tirer(rng, ECHELLE),
                tirer(rng, ECHELLE),
            ];
            ligne.push(t);
        }
        r.push(ligne);
    }
    r
}

} // verus!
