use foret::etat::{compter, contient, etat_de_rang, etat_suivant, ECHELLE};
use foret::{Etat, Foret};
use rand::rngs::StdRng;
use rand::{Rng, SeedableRng};

const TOUS: [Etat; 7] = [
    Etat::Pierre,
    Etat::Cendres,
    Etat::Jeune,
    Etat::Ancien,
    Etat::DebutFeu,
    Etat::Feu,
    Etat::FinFeu,
];

fn permise(e: Etat, r: Etat) -> bool {
    match e {
        Etat::Pierre => r == Etat::Pierre,
        Etat::Cendres => r == Etat::Cendres || r == Etat::Jeune,
        Etat::Jeune => r == Etat::Jeune || r == Etat::Ancien || r == Etat::DebutFeu,
        Etat::Ancien => r == Etat::Ancien || r == Etat::DebutFeu,
        Etat::DebutFeu => r == Etat::DebutFeu || r == Etat::Feu,
        Etat::Feu => r == Etat::Feu || r == Etat::FinFeu,
        Etat::FinFeu => r == Etat::FinFeu || r == Etat::Cendres,
    }
}

fn tirages_uniformes(f: &Foret, t: [u32; 4]) -> Vec<Vec<[u32; 4]>> {
    vec![vec![t; f.n() - 2]; f.m() - 2]
}

fn grille(f: &Foret) -> Vec<Vec<Etat>> {
    (0..f.m()).map(|i| (0..f.n()).map(|j| f.etat(i, j)).collect()).collect()
}

#[test]
fn new_refuse_les_petites_dimensions() {
    assert!(Foret::new(2, 5).is_none());
    assert!(Foret::new(5, 2).is_none());
    assert!(Foret::new(0, 0).is_none());
    let f = Foret::new(3, 4).unwrap();
    assert_eq!((f.m(), f.n()), (3, 4));
    for i in 0..3 {
        for j in 0..4 {
            assert_eq!(f.etat(i, j), Etat::Pierre);
        }
    }
}

#[test]
fn init_etat_remplit_l_interieur_seulement() {
    let mut f = Foret::new(4, 5).unwrap();
    f.init_etat(Etat::Cendres);
    for i in 0..4 {
        for j in 0..5 {
            let bord = i == 0 || i == 3 || j == 0 || j == 4;
            let attendu = if bord { Etat::Pierre } else { Etat::Cendres };
            assert_eq!(f.etat(i, j), attendu);
        }
    }
    // The staging generation was filled too.
    f.echanger_arbres();
    assert_eq!(f.etat(1, 1), Etat::Cendres);
    assert_eq!(f.etat(0, 0), Etat::Pierre);
}

#[test]
fn init_alea_tire_des_etats_varies_et_garde_le_bord() {
    let mut f = Foret::new(20, 20).unwrap();
    let mut rng = StdRng::seed_from_u64(7);
    f.init_alea(&mut rng);
    let mut vus = Vec::new();
    for i in 0..20 {
        for j in 0..20 {
            let e = f.etat(i, j);
            if i == 0 || i == 19 || j == 0 || j == 19 {
                assert_eq!(e, Etat::Pierre);
            } else if !vus.contains(&e) {
                vus.push(e);
            }
        }
    }
    assert_eq!(vus.len(), 7);
    let avant = grille(&f);
    f.echanger_arbres();
    assert_eq!(grille(&f), avant);
}

#[test]
fn recuperer_voisins_en_ordre_de_lecture() {
    let mut f = Foret::new(3, 3).unwrap();
    f.init_etat(Etat::Feu);
    let v = f.recuperer_voisins(1, 1);
    assert_eq!(v, vec![Etat::Pierre; 8]);
    let mut g = Foret::new(4, 4).unwrap();
    g.init_etat(Etat::Jeune);
    assert_eq!(
        g.recuperer_voisins(1, 1),
        vec![
            Etat::Pierre,
            Etat::Pierre,
            Etat::Pierre,
            Etat::Pierre,
            Etat::Jeune,
            Etat::Pierre,
            Etat::Jeune,
            Etat::Jeune,
        ]
    );
}

#[test]
fn contient_et_compter() {
    let v = vec![Etat::Ancien, Etat::Feu, Etat::Ancien];
    assert!(contient(&v, Etat::Feu));
    assert!(!contient(&v, Etat::FinFeu));
    assert!(!contient(&Vec::new(), Etat::Pierre));
    assert_eq!(compter(&v, Etat::Ancien), 2);
    assert_eq!(compter(&v, Etat::Jeune), 0);
}

#[test]
fn etat_de_rang_suit_l_ordre() {
    for k in 0..7u32 {
        assert_eq!(etat_de_rang(k), TOUS[k as usize]);
    }
}

#[test]
fn pierre_reste_pierre() {
    let voisins = vec![Etat::DebutFeu; 8];
    for t in [[0, 0, 0, 0], [ECHELLE - 1; 4], [5, 50, 500, 5000]] {
        assert_eq!(etat_suivant(Etat::Pierre, &voisins, &t), Etat::Pierre);
    }
}

#[test]
fn cendres_deviennent_jeunes_sous_le_seuil() {
    let v = vec![Etat::Cendres; 8];
    assert_eq!(etat_suivant(Etat::Cendres, &v, &[99, 0, 0, 0]), Etat::Jeune);
    assert_eq!(etat_suivant(Etat::Cendres, &v, &[100, 0, 0, 0]), Etat::Cendres);
}

#[test]
fn chaine_du_feu() {
    let v = vec![Etat::Jeune; 8];
    let suivants = [
        (Etat::DebutFeu, Etat::Feu),
        (Etat::Feu, Etat::FinFeu),
        (Etat::FinFeu, Etat::Cendres),
    ];
    for (e, s) in suivants {
        assert_eq!(etat_suivant(e, &v, &[0, 0, 0, 0]), s);
        assert_eq!(etat_suivant(e, &v, &[9999, 0, 0, 0]), s);
        assert_eq!(etat_suivant(e, &v, &[10000, 0, 0, 0]), e);
    }
}

#[test]
fn jeune_s_allume_seulement_pres_du_feu() {
    let sans_feu = vec![Etat::Jeune; 8];
    // Every draw succeeds: without a fire among the neighbours the tree ages.
    assert_eq!(etat_suivant(Etat::Jeune, &sans_feu, &[0, 0, 0, 0]), Etat::Ancien);
    assert_eq!(etat_suivant(Etat::Jeune, &sans_feu, &[0, 0, 0, 500]), Etat::Jeune);
    for feu in [Etat::DebutFeu, Etat::Feu, Etat::FinFeu] {
        let mut v = sans_feu.clone();
        v[3] = feu;
        assert_eq!(etat_suivant(Etat::Jeune, &v, &[0, 0, 0, 0]), Etat::DebutFeu);
    }
    let mut v = sans_feu.clone();
    v[0] = Etat::Feu;
    // The first draw fails; the second one reads the full fire.
    assert_eq!(etat_suivant(Etat::Jeune, &v, &[1000, 1999, 99999, 99999]), Etat::DebutFeu);
    assert_eq!(etat_suivant(Etat::Jeune, &v, &[0, 2000, 0, 99999]), Etat::Jeune);
}

#[test]
fn ancien_s_allume_seulement_pres_du_feu_ou_des_anciens() {
    let mut v = vec![Etat::Cendres; 8];
    assert_eq!(etat_suivant(Etat::Ancien, &v, &[0, 0, 0, 0]), Etat::Ancien);
    for k in 0..4 {
        v[k] = Etat::Ancien;
    }
    assert_eq!(etat_suivant(Etat::Ancien, &v, &[0, 0, 0, 0]), Etat::Ancien);
    v[4] = Etat::Ancien;
    assert_eq!(etat_suivant(Etat::Ancien, &v, &[0, 0, 0, 4]), Etat::DebutFeu);
    assert_eq!(etat_suivant(Etat::Ancien, &v, &[0, 0, 0, 5]), Etat::Ancien);
    let mut w = vec![Etat::Cendres; 8];
    w[7] = Etat::FinFeu;
    assert_eq!(etat_suivant(Etat::Ancien, &w, &[0, 0, 9999, 99999]), Etat::DebutFeu);
    assert_eq!(etat_suivant(Etat::Ancien, &w, &[0, 0, 10000, 0]), Etat::Ancien);
    w[7] = Etat::Feu;
    assert_eq!(etat_suivant(Etat::Ancien, &w, &[99999, 19999, 99999, 99999]), Etat::DebutFeu);
}

#[test]
fn regle_toujours_permise_sur_des_voisinages_tires() {
    let mut rng = StdRng::seed_from_u64(11);
    for _ in 0..20000 {
        let e = TOUS[rng.gen_range(0..7)];
        let v: Vec<Etat> = (0..8).map(|_| TOUS[rng.gen_range(0..7)]).collect();
        let t = [
            rng.gen_range(0..ECHELLE),
            rng.gen_range(0..ECHELLE) / 50,
            rng.gen_range(0..ECHELLE) / 50,
            rng.gen_range(0..ECHELLE) / 100,
        ];
        let r = etat_suivant(e, &v, &t);
        assert!(permise(e, r));
        if (e == Etat::Jeune || e == Etat::Ancien) && r == Etat::DebutFeu {
            let feu = v.contains(&Etat::DebutFeu) || v.contains(&Etat::Feu) || v.contains(&Etat::FinFeu);
            let anciens = v.iter().filter(|x| **x == Etat::Ancien).count() >= 5;
            assert!(feu || (e == Etat::Ancien && anciens));
        }
    }
}

#[test]
fn debut_de_feu_partout_devient_feu() {
    let mut f = Foret::new(5, 5).unwrap();
    f.init_etat(Etat::DebutFeu);
    let d = tirages_uniformes(&f, [0, 0, 0, 0]);
    f.iteration_avec_tirages(&d);
    for i in 0..5 {
        for j in 0..5 {
            let bord = i == 0 || i == 4 || j == 0 || j == 4;
            let attendu = if bord { Etat::Pierre } else { Etat::Feu };
            assert_eq!(f.etat(i, j), attendu);
        }
    }
}

#[test]
fn iteration_lit_la_generation_precedente_seulement() {
    let mut g = Foret::new(3, 5).unwrap();
    g.init_etat(Etat::Jeune);
    let d = tirages_uniformes(&g, [0, 0, 0, 0]);
    g.iteration_avec_tirages(&d);
    assert_eq!(grille(&g)[1], vec![Etat::Pierre, Etat::Ancien, Etat::Ancien, Etat::Ancien, Etat::Pierre]);
    // The previous generation is now the staging one.
    g.echanger_arbres();
    assert_eq!(grille(&g)[1], vec![Etat::Pierre, Etat::Jeune, Etat::Jeune, Etat::Jeune, Etat::Pierre]);
}

#[test]
fn iteration_propage_le_feu_d_une_seule_couronne() {
    // A forest of old trees where only the centre ignites by itself.
    let mut g = Foret::new(7, 7).unwrap();
    g.init_etat(Etat::Ancien);
    let mut d = tirages_uniformes(&g, [99999; 4]);
    d[2][2] = [99999, 99999, 99999, 0];
    g.iteration_avec_tirages(&d);
    for i in 1..6 {
        for j in 1..6 {
            let attendu = if (i, j) == (3, 3) { Etat::DebutFeu } else { Etat::Ancien };
            assert_eq!(g.etat(i, j), attendu);
        }
    }
    // Next generation: the fire reaches its neighbours only, since every
    // cell reads the previous generation, never one updated in this step.
    d = tirages_uniformes(&g, [0, 99999, 99999, 99999]);
    g.iteration_avec_tirages(&d);
    for i in 1..6usize {
        for j in 1..6usize {
            let distance = i.abs_diff(3).max(j.abs_diff(3));
            let attendu = match distance {
                0 => Etat::Feu,
                1 => Etat::DebutFeu,
                _ => Etat::Ancien,
            };
            assert_eq!(g.etat(i, j), attendu);
        }
    }
}

#[test]
fn iteration_reproductible_a_graine_egale() {
    let mut resultats = Vec::new();
    for _ in 0..2 {
        let mut f = Foret::new(12, 15).unwrap();
        let mut rng = StdRng::seed_from_u64(2024);
        f.init_alea(&mut rng);
        for _ in 0..50 {
            f.iteration_suivante(&mut rng);
        }
        resultats.push(grille(&f));
    }
    assert_eq!(resultats[0], resultats[1]);
}

#[test]
fn iteration_suivante_fait_avancer_le_feu() {
    let mut f = Foret::new(10, 10).unwrap();
    f.init_etat(Etat::DebutFeu);
    let mut rng = StdRng::seed_from_u64(3);
    for _ in 0..100 {
        f.iteration_suivante(&mut rng);
    }
    let g = grille(&f);
    assert!(g.iter().flatten().any(|e| *e != Etat::DebutFeu && *e != Etat::Pierre));
    assert_eq!(g[0], vec![Etat::Pierre; 10]);
}

#[test]
fn cendres_finissent_par_donner_des_jeunes() {
    let mut f = Foret::new(20, 20).unwrap();
    f.init_etat(Etat::Cendres);
    let mut rng = StdRng::from_entropy();
    let mut jeune_vu = false;
    for _ in 0..2000 {
        f.iteration_suivante(&mut rng);
        if grille(&f).iter().flatten().any(|e| *e == Etat::Jeune) {
            jeune_vu = true;
        }
    }
    assert!(jeune_vu);
}

#[test]
fn init_etats_place_chaque_etat() {
    let mut f = Foret::new(4, 5).unwrap();
    let etats = vec![
        vec![Etat::Jeune, Etat::Feu, Etat::Ancien],
        vec![Etat::Cendres, Etat::DebutFeu, Etat::FinFeu],
    ];
    f.init_etats(&etats);
    assert_eq!(grille(&f)[0], vec![Etat::Pierre; 5]);
    assert_eq!(grille(&f)[1], vec![Etat::Pierre, Etat::Jeune, Etat::Feu, Etat::Ancien, Etat::Pierre]);
    assert_eq!(
        grille(&f)[2],
        vec![Etat::Pierre, Etat::Cendres, Etat::DebutFeu, Etat::FinFeu, Etat::Pierre]
    );
    let avant = grille(&f);
    f.echanger_arbres();
    assert_eq!(grille(&f), avant);
}
