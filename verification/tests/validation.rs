use engine::model::{ProfilAdulte, TempsGestion};
use engine::validation::{
    controler_adulte, controler_enfant, controler_echeance_projet, controler_glide_path,
    controler_horizon_revenus, controler_nombre_adultes, controler_nombre_enfants,
    controler_nombre_projets, est_blanc, nom_affiche,
};

fn adulte(age: u32, tol: u8, stab: u8) -> ProfilAdulte {
    ProfilAdulte {
        age,
        tol_risque: tol,
        stab_revenus: stab,
        temps_gestion: TempsGestion::Moyen,
        abondement_employeur: false,
    }
}

#[test]
fn noms_affiches() {
    assert_eq!(nom_affiche("Adulte 1", "Adulte", 0), "Adulte 1");
    assert_eq!(nom_affiche("   ", "Adulte", 0), "Adulte 1");
    assert_eq!(nom_affiche("", "Projet", 11), "Projet 12");
    assert_eq!(nom_affiche("\u{a0}\t", "Enfant", 1), "Enfant 2");
    assert_eq!(nom_affiche(" Léa ", "Enfant", 1), " Léa ");
    assert!(est_blanc("\u{3000} \n"));
    assert!(!est_blanc(" x "));
}

#[test]
fn tolerance_hors_bornes() {
    let mut e = Vec::new();
    controler_adulte(&mut e, "Adulte 1", &adulte(36, 9, 3));
    assert_eq!(e, vec!["Adulte 1 : la tolérance au risque doit être comprise entre 1 et 5."]);
    controler_adulte(&mut e, "B", &adulte(36, 0, 3));
    assert_eq!(e.len(), 2);
}

#[test]
fn adulte_valide_et_invalide() {
    let mut e = Vec::new();
    controler_adulte(&mut e, "A", &adulte(16, 1, 1));
    controler_adulte(&mut e, "A", &adulte(100, 5, 3));
    assert!(e.is_empty());
    controler_adulte(&mut e, "A", &adulte(15, 6, 4));
    assert_eq!(
        e,
        vec![
            "A : l'âge doit être compris entre 16 et 100 ans.",
            "A : la tolérance au risque doit être comprise entre 1 et 5.",
            "A : la stabilité des revenus doit être comprise entre 1 et 3.",
        ]
    );
}

#[test]
fn effectifs() {
    let mut e = Vec::new();
    controler_nombre_adultes(&mut e, 0);
    controler_nombre_adultes(&mut e, 7);
    controler_nombre_adultes(&mut e, 6);
    controler_nombre_projets(&mut e, 31);
    controler_nombre_projets(&mut e, 30);
    controler_nombre_enfants(&mut e, 13);
    controler_nombre_enfants(&mut e, 12);
    assert_eq!(
        e,
        vec![
            "Le foyer doit compter au moins un adulte.",
            "6 adultes maximum.",
            "30 projets maximum.",
            "12 enfants maximum.",
        ]
    );
}

#[test]
fn echeances_et_enfants() {
    let mut e = Vec::new();
    controler_echeance_projet(&mut e, "Voiture", 60);
    controler_horizon_revenus(&mut e, 60);
    assert!(e.is_empty());
    controler_echeance_projet(&mut e, "Voiture", 61);
    controler_horizon_revenus(&mut e, 61);
    controler_enfant(&mut e, "Léa", 31, 0);
    controler_enfant(&mut e, "Léo", 6, 5);
    controler_enfant(&mut e, "Tom", 6, 11);
    assert_eq!(
        e,
        vec![
            "Voiture : échéance ≤ 60 ans.",
            "L'horizon revenus passifs doit être ≤ 60 ans.",
            "Léa : âge ≤ 30 ans.",
            "Léa : durée d'études entre 1 et 10 ans.",
            "Tom : durée d'études entre 1 et 10 ans.",
        ]
    );
}

#[test]
fn glide_path_avec_palier_nul() {
    let mut e = Vec::new();
    controler_glide_path(&mut e, &vec![13, 8, 5, 3, 0]);
    assert!(e.is_empty());
    controler_glide_path(&mut e, &vec![13, 8]);
    controler_glide_path(&mut e, &Vec::new());
    assert_eq!(e.len(), 2);
    assert_eq!(e[0], "Le glide path doit contenir un palier à 0 an.");
}
