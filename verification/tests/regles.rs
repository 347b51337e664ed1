use engine::calcul::{enveloppe_et_support, priorite_enveloppes, ContexteEnveloppe};
use engine::model::{
    profil_foyer, tolerances_divergentes, PosteDepense, Priorite, ProfilAdulte, StatutRp,
    TempsGestion, Tmi,
};
use engine::output::{trier_alertes, Alerte, Gravite};
use engine::params::{palier_glide, passage_palier, Ligne, Profil};
use engine::poche1::{
    duree_precaution, enveloppe_sous_poche, horizon_etudes, ordre_sous_poches, DureePrecaution,
    Stabilite,
};
use engine::poche2::{bareme_score, lignes_ouvertes};
use engine::output::CategoriePoche;

fn adultes_exemple() -> Vec<ProfilAdulte> {
    vec![
        ProfilAdulte {
            age: 36,
            tol_risque: 4,
            stab_revenus: 3,
            temps_gestion: TempsGestion::Moyen,
            abondement_employeur: true,
        },
        ProfilAdulte {
            age: 34,
            tol_risque: 3,
            stab_revenus: 2,
            temps_gestion: TempsGestion::Faible,
            abondement_employeur: false,
        },
    ]
}

/// Seuils du glide path par défaut (13, 8, 5, 3, 0 ans) et parts actions associées.
const SEUILS: [u32; 5] = [13, 8, 5, 3, 0];
const PARTS: [f64; 5] = [0.80, 0.60, 0.40, 0.20, 0.00];

fn part_actions(horizon: u32) -> f64 {
    palier_glide(&SEUILS.to_vec(), horizon).map(|k| PARTS[k]).unwrap_or(0.0)
}

#[test]
fn tmi_taux_et_tranches() {
    assert_eq!(Tmi::T0.pct(), 0);
    assert_eq!(Tmi::T11.pct(), 11);
    assert_eq!(Tmi::T30.pct(), 30);
    assert_eq!(Tmi::T41.pct(), 41);
    assert_eq!(Tmi::T45.pct(), 45);
    assert!(Tmi::T30.haute() && Tmi::T45.haute() && !Tmi::T11.haute());
    assert!(Tmi::T0.basse() && Tmi::T11.basse() && !Tmi::T30.basse());
    assert!(!Tmi::T41.basse() && !Tmi::T0.haute());
}

#[test]
fn libelles() {
    assert_eq!(PosteDepense::Logement.libelle(), "Logement (loyer, charges, énergie)");
    assert_eq!(PosteDepense::Impots.libelle(), "Impôts (IR, taxe foncière)");
    assert_eq!(PosteDepense::TOUS.len(), 9);
    assert_eq!(Priorite::Souhaitable.libelle(), "Souhaitable");
    assert_eq!(Ligne::Crowdfunding.libelle(), "Crowdfunding (immo + ENR)");
    assert_eq!(Ligne::TOUTES.len(), 8);
    assert_eq!(Profil::Equilibre.libelle(), "Équilibré");
}

#[test]
fn satellites_et_profils() {
    let satellites: Vec<Ligne> = Ligne::TOUTES.iter().copied().filter(|l| l.est_satellite()).collect();
    assert_eq!(
        satellites,
        vec![Ligne::ActionsDirectes, Ligne::Crowdfunding, Ligne::Crypto, Ligne::PrivateEquity]
    );
    assert_eq!(Profil::Dynamique.inferieur(), Profil::Equilibre);
    assert_eq!(Profil::Equilibre.inferieur(), Profil::Prudent);
    assert_eq!(Profil::Prudent.inferieur(), Profil::Prudent);
}

#[test]
fn alertes_par_gravite() {
    let a = Alerte::info("i");
    assert_eq!(a.gravite, Gravite::Info);
    assert_eq!(a.message, "i");
    assert_eq!(Alerte::attention(String::from("a")).gravite, Gravite::Attention);
    assert_eq!(Alerte::critique("c").message, "c");
}

#[test]
fn profil_du_foyer_exemple() {
    let f = profil_foyer(&adultes_exemple());
    assert_eq!(f.age, 36);
    assert!(f.en_couple);
    assert_eq!(f.tol_risque, 3);
    assert_eq!(f.tol_max, 4);
    assert_eq!(f.temps_gestion, TempsGestion::Faible);
    assert!(f.abondement_employeur);
    assert!(!tolerances_divergentes(&f));
}

#[test]
fn foyer_sans_adulte() {
    let f = profil_foyer(&Vec::new());
    assert_eq!(f.age, 0);
    assert!(!f.en_couple);
    assert_eq!((f.tol_risque, f.tol_max), (3, 3));
    assert_eq!(f.temps_gestion, TempsGestion::Faible);
    assert!(!f.abondement_employeur);
}

#[test]
fn ecart_de_tolerance_de_deux_points() {
    let mut a = adultes_exemple();
    a[0].tol_risque = 5;
    a[1].tol_risque = 2;
    let f = profil_foyer(&a);
    assert_eq!(f.tol_risque, 2);
    assert!(tolerances_divergentes(&f));
    a[0].tol_risque = 3;
    assert!(!tolerances_divergentes(&profil_foyer(&a)));
    // Un adulte seul n'a personne avec qui diverger.
    assert!(!tolerances_divergentes(&profil_foyer(&a[..1].to_vec())));
}

#[test]
fn glide_path_bornes() {
    assert_eq!(part_actions(13), 0.8);
    assert_eq!(part_actions(12), 0.6);
    assert_eq!(part_actions(8), 0.6);
    assert_eq!(part_actions(7), 0.4);
    assert_eq!(part_actions(5), 0.4);
    assert_eq!(part_actions(4), 0.2);
    assert_eq!(part_actions(3), 0.2);
    assert_eq!(part_actions(2), 0.0);
    assert_eq!(part_actions(0), 0.0);
    assert_eq!(palier_glide(&SEUILS.to_vec(), 12), Some(1));
}

#[test]
fn palier_glide_non_trie_et_doublons() {
    // L'ordre de la liste n'importe pas ; à seuil égal, le premier l'emporte.
    let seuils = vec![0, 8, 3, 8, 13];
    assert_eq!(palier_glide(&seuils, 10), Some(1));
    assert_eq!(palier_glide(&seuils, 2), Some(0));
    assert_eq!(palier_glide(&seuils, 40), Some(4));
    assert_eq!(palier_glide(&vec![5, 3], 2), None);
    assert_eq!(palier_glide(&Vec::new(), 2), None);
}

#[test]
fn prochain_palier_dix_ans() {
    // Horizon 10 ans : palier « ≥ 8 ans », passage dans 3 ans à 7 ans (40 %).
    let k = palier_glide(&SEUILS.to_vec(), 10).unwrap();
    let (dans, h) = passage_palier(10, SEUILS[k]);
    assert_eq!(dans, 3);
    assert_eq!(h, 7);
    assert_eq!(part_actions(h), 0.4);
    assert_eq!(passage_palier(2, 0), (3, 0));
}

#[test]
fn horizon_des_etudes() {
    assert_eq!(horizon_etudes(18, 8), 10);
    assert_eq!(horizon_etudes(18, 18), 0);
    assert_eq!(horizon_etudes(18, 19), 0);
}

#[test]
fn duree_de_precaution() {
    assert_eq!(duree_precaution(Stabilite::Instable, StatutRp::ProprietairePayee), DureePrecaution::Maximum);
    assert_eq!(duree_precaution(Stabilite::Stable, StatutRp::ProprietairePayee), DureePrecaution::Minimum);
    assert_eq!(duree_precaution(Stabilite::Stable, StatutRp::ProprietaireAvecCredit), DureePrecaution::Defaut);
    assert_eq!(duree_precaution(Stabilite::Intermediaire, StatutRp::ProprietairePayee), DureePrecaution::Defaut);
    assert_eq!(duree_precaution(Stabilite::Intermediaire, StatutRp::Locataire), DureePrecaution::Defaut);
}

#[test]
fn enveloppes_des_sous_poches() {
    assert_eq!(
        enveloppe_sous_poche(0, CategoriePoche::Etudes),
        "Fonds euros / livret (capital sécurisé, disponible)"
    );
    assert!(enveloppe_sous_poche(10, CategoriePoche::Etudes).starts_with("Assurance-vie à frais bas"));
    assert!(enveloppe_sous_poche(3, CategoriePoche::Projet).contains("horizon court"));
    assert_eq!(
        enveloppe_sous_poche(5, CategoriePoche::Projet),
        "Assurance-vie à frais bas (fonds euros + ETF monde)"
    );
}

#[test]
fn sous_poches_par_priorite_puis_echeance() {
    // Enfants (12 et 15 ans d'horizon) puis voiture (4 ans, important) et voyage (2 ans, souhaitable).
    let cles = vec![
        (Priorite::Essentiel, 12),
        (Priorite::Essentiel, 15),
        (Priorite::Important, 4),
        (Priorite::Souhaitable, 2),
    ];
    assert_eq!(ordre_sous_poches(&cles), vec![0, 1, 2, 3]);
    let cles = vec![
        (Priorite::Souhaitable, 1),
        (Priorite::Important, 5),
        (Priorite::Essentiel, 9),
        (Priorite::Important, 2),
        (Priorite::Important, 5),
        (Priorite::Essentiel, 3),
    ];
    assert_eq!(ordre_sous_poches(&cles), vec![5, 2, 3, 1, 4, 0]);
    assert!(ordre_sous_poches(&Vec::new()).is_empty());
}

#[test]
fn tri_des_alertes() {
    let alertes = vec![
        Alerte::info("i1"),
        Alerte::critique("c1"),
        Alerte::attention("a1"),
        Alerte::info("i2"),
        Alerte::critique("c2"),
    ];
    let t = trier_alertes(alertes);
    let messages: Vec<&str> = t.iter().map(|a| a.message.as_str()).collect();
    assert_eq!(messages, vec!["c1", "c2", "a1", "i1", "i2"]);
}

#[test]
fn bareme_score_exemple() {
    // Tolérance 3 + horizon 15 ans (0) + revenus stables (1) + RP non payée (0) + 36 ans (0,5).
    let b = bareme_score(3, 15, 7, 15, Stabilite::Stable, StatutRp::ProprietaireAvecCredit, 36);
    assert_eq!(b.total, 9);
    assert_eq!(b.total as f64 / 2.0, 4.5);
    let b = bareme_score(2, 5, 7, 15, Stabilite::Instable, StatutRp::ProprietairePayee, 60);
    assert_eq!((b.tolerance, b.horizon, b.stabilite, b.residence, b.age), (4, -2, -2, 1, -2));
    assert_eq!(b.total, -1);
    assert_eq!(bareme_score(5, 16, 7, 15, Stabilite::Intermediaire, StatutRp::Locataire, 45).total, 12);
}

#[test]
fn lignes_ouvertes_aux_apports() {
    assert_eq!(lignes_ouvertes(&Vec::new()), Ligne::TOUTES.to_vec());
    assert_eq!(
        lignes_ouvertes(&vec![Ligne::Crypto, Ligne::Immobilier, Ligne::PrivateEquity]),
        vec![
            Ligne::EtfMonde,
            Ligne::FondsEurosObligations,
            Ligne::Or,
            Ligne::ActionsDirectes,
            Ligne::Crowdfunding
        ]
    );
}

#[test]
fn ordre_des_enveloppes() {
    assert_eq!(
        priorite_enveloppes(true, Tmi::T30),
        vec![
            "PEE / PER employeur (abondement)",
            "PEA — ETF monde",
            "Assurance-vie — fonds euros + ETF + SCPI",
            "PER individuel (TMI ≥ 30 %, horizon retraite)",
            "CTO — or, ETF non éligibles",
            "Plateformes de crowdfunding",
        ]
    );
    assert_eq!(priorite_enveloppes(false, Tmi::T11).len(), 4);
}

fn contexte() -> ContexteEnveloppe {
    ContexteEnveloppe {
        tmi: Tmi::T30,
        esg: false,
        refus_immo_direct: false,
        temps_gestion: TempsGestion::Moyen,
        immo_fige: false,
        pea_plein: false,
        plafond_pea: "150 000 €".to_string(),
        pfu: "31,4 %".to_string(),
        plafond_par_projet: "1 080 €".to_string(),
    }
}

#[test]
fn enveloppes_et_supports_des_lignes() {
    let c = contexte();
    let (env, sup) = enveloppe_et_support(Ligne::EtfMonde, &c);
    assert_eq!(env, "PEA (jusqu'à 150 000 € de versements), puis AV, puis CTO");
    assert!(sup.contains("pas de doublon S&P 500"));
    let (env, _) = enveloppe_et_support(Ligne::Immobilier, &c);
    assert_eq!(env, "SCPI en assurance-vie ou PER — jamais en direct (TMI ≥ 30 %)");
    let (env, sup) = enveloppe_et_support(Ligne::Crowdfunding, &c);
    assert_eq!(env, "Direct (PFU 31,4 %)");
    assert!(sup.contains("≤ 1 080 € par projet"));
    let fige = ContexteEnveloppe { immo_fige: true, pea_plein: true, ..contexte() };
    assert_eq!(enveloppe_et_support(Ligne::Immobilier, &fige).0, "Aucun nouvel apport");
    assert_eq!(enveloppe_et_support(Ligne::EtfMonde, &fige).0, "PEA plein : assurance-vie, puis CTO");
    assert!(enveloppe_et_support(Ligne::Crowdfunding, &fige).1.starts_with("Énergies renouvelables"));
}

#[test]
fn alertes_abondement_tmi_et_echeance() {
    let mut a = Vec::new();
    engine::calcul::ajouter_alertes_foyer(&mut a, true, Tmi::T30, &"10,0 %".to_string(), 2, 3, 2, Profil::Equilibre);
    let m: Vec<(Gravite, &str)> = a.iter().map(|x| (x.gravite, x.message.as_str())).collect();
    assert_eq!(
        m,
        vec![
            (Gravite::Info, "Abondement PEE/PER employeur : à capter en priorité, avant tout autre placement."),
            (
                Gravite::Info,
                "TMI 30 % : activer un PER pour la part retraite (déduction jusqu'à 10,0 % des revenus) ; SCPI et obligations en enveloppe capitalisante."
            ),
            (
                Gravite::Attention,
                "Échéance dans 2 an(s) : passer la poche 2 au profil Prudent (risque de séquence) et constituer 2 ans de retraits en fonds euros."
            ),
        ]
    );
    let mut b = Vec::new();
    engine::calcul::ajouter_alertes_foyer(&mut b, false, Tmi::T11, &"10,0 %".to_string(), 15, 3, 2, Profil::Dynamique);
    assert_eq!(b.len(), 1);
    assert_eq!(b[0].message, "TMI ≤ 11 % : PER peu utile ; SCPI en direct envisageable.");
    let mut c = Vec::new();
    engine::calcul::ajouter_alertes_foyer(&mut c, false, Tmi::T41, &"10,0 %".to_string(), 0, 3, 2, Profil::Dynamique);
    assert_eq!(c.len(), 1);
    assert!(c[0].message.starts_with("TMI 41 %"));
}

#[test]
fn alerte_sur_les_rapports_au_risque() {
    let adultes = vec![("Alice".to_string(), 5u8), ("Bruno".to_string(), 2u8), ("Chloé".to_string(), 2u8)];
    let mut profils = adultes_exemple();
    profils.push(profils[1]);
    profils[0].tol_risque = 5;
    profils[1].tol_risque = 2;
    profils[2].tol_risque = 2;
    let f = profil_foyer(&profils);
    let a = engine::calcul::alerte_tolerances(&adultes, &f).unwrap();
    assert_eq!(a.gravite, Gravite::Attention);
    assert_eq!(
        a.message,
        "Rapports au risque très différents dans le foyer (Bruno, Chloé : 2/5, Alice : 5/5) : le plus prudent est retenu. À discuter ensemble avant d'investir."
    );
    assert!(engine::calcul::alerte_tolerances(&adultes, &profil_foyer(&adultes_exemple())).is_none());
}
