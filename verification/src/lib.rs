//! Moteur d'allocation patrimoniale : règles vérifiées de la saisie en famille,
//! du glide path, de l'ordre des sous-poches, du score de profil, des enveloppes,
//! des alertes et de la validation.

pub mod calcul;
pub mod model;
pub mod output;
pub mod params;
pub mod poche1;
pub mod poche2;
pub mod validation;
