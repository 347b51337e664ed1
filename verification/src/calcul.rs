//! Éléments du calcul qui ne dépendent que des choix du foyer : ordre de
//! priorité des enveloppes, enveloppe et support conseillés pour chaque ligne,
//! alertes sur l'abondement, la fiscalité et l'échéance.

use vstd::prelude::*;

use crate::model::{ProfilFoyer, TempsGestion, Tmi};
use crate::output::{Alerte, Gravite};
use crate::params::{Ligne, Profil};
use crate::validation::{decimal, texte_entier, textes};

verus! {

/// Ordre de priorité des enveloppes : l'abondement employeur d'abord s'il existe,
/// le PER individuel seulement en TMI de 30 % ou plus.
pub open spec fn enveloppes_par_priorite(abondement_employeur: bool, tmi: Tmi) -> Seq<Seq<char>> {
    (if abondement_employeur {
        seq!["PEE / PER employeur (abondement)"@]
    } else {
        Seq::empty()
    }) + seq!["PEA — ETF monde"@, "Assurance-vie — fonds euros + ETF + SCPI"@] + (if tmi.taux()
        >= 30 {
        seq!["PER individuel (TMI ≥ 30 %, horizon retraite)"@]
    } else {
        Seq::empty()
    }) + seq!["CTO — or, ETF non éligibles"@, "Plateformes de crowdfunding"@]
}

fn pousser(v: &mut Vec<String>, s: &str)
    ensures
        textes(final(v)@) == textes(old(v)@).push(s@),
{
    let ghost avant = v@;
    v.push(String::from_str(s));
    assert(textes(v@) =~= textes(avant).push(s@));
}

/// Ordre des enveloppes : l'abondement employeur en tête s'il existe, puis le PEA et
/// l'assurance-vie ; le PER individuel vient ensuite si et seulement si la TMI est de
/// 30 % ou plus (30, 41 ou 45 %) ; le CTO et le crowdfunding ferment la liste.
pub proof fn per_des_trente_pour_cent(abondement_employeur: bool, tmi: Tmi)
    ensures
        ({
            let s = enveloppes_par_priorite(abondement_employeur, tmi);
            let a: int = if abondement_employeur { 1 } else { 0 };
            let haute = tmi == Tmi::T30 || tmi == Tmi::T41 || tmi == Tmi::T45;
            &&& abondement_employeur ==> s[0] == "PEE / PER employeur (abondement)"@
            &&& s[a] == "PEA — ETF monde"@
            &&& s[a + 1] == "Assurance-vie — fonds euros + ETF + SCPI"@
            &&& haute ==> s.len() == 5 + a && s[a + 2]
                == "PER individuel (TMI ≥ 30 %, horizon retraite)"@
            &&& !haute ==> s.len() == 4 + a
            &&& s[s.len() - 2] == "CTO — or, ETF non éligibles"@
            &&& s[s.len() - 1] == "Plateformes de crowdfunding"@
            &&& s.contains("PER individuel (TMI ≥ 30 %, horizon retraite)"@) <==> haute
        }),
{
    reveal_strlit("PEE / PER employeur (abondement)");
    reveal_strlit("PEA — ETF monde");
    reveal_strlit("Assurance-vie — fonds euros + ETF + SCPI");
    reveal_strlit("PER individuel (TMI ≥ 30 %, horizon retraite)");
    reveal_strlit("CTO — or, ETF non éligibles");
    reveal_strlit("Plateformes de crowdfunding");
    let s = enveloppes_par_priorite(abondement_employeur, tmi);
    let per = "PER individuel (TMI ≥ 30 %, horizon retraite)"@;
    assert(per[1] == 'E');
    assert("PEE / PER employeur (abondement)"@[2] == 'E');
    assert("PEA — ETF monde"@[2] == 'A');
    assert("Assurance-vie — fonds euros + ETF + SCPI"@[0] == 'A');
    assert("CTO — or, ETF non éligibles"@[0] == 'C');
    assert("Plateformes de crowdfunding"@[1] == 'l');
    assert(per[2] == 'R');
    if tmi == Tmi::T30 || tmi == Tmi::T41 || tmi == Tmi::T45 {
        let a: int = if abondement_employeur { 1 } else { 0 };
        assert(s[a + 2] == per);
    }
}

/// Liste des enveloppes à alimenter, par ordre de priorité.
pub fn priorite_enveloppes(abondement_employeur: bool, tmi: Tmi) -> (r: Vec<String>)
    ensures
        textes(r@) == enveloppes_par_priorite(abondement_employeur, tmi),
        textes(r@).contains("PER individuel (TMI ≥ 30 %, horizon retraite)"@) <==> (tmi == Tmi::T30
            || tmi == Tmi::T41 || tmi == Tmi::T45),
        r@.len() == 4 + (if abondement_employeur { 1int } else { 0 }) + (if tmi == Tmi::T30 || tmi
            == Tmi::T41 || tmi == Tmi::T45 { 1int } else { 0 }),
{
    proof {
        per_des_trente_pour_cent(abondement_employeur, tmi);
    }
    let mut r: Vec<String> = Vec::new();
    if abondement_employeur {
        pousser(&mut r, "PEE / PER employeur (abondement)");
    }
    pousser(&mut r, "PEA — ETF monde");
    pousser(&mut r, "Assurance-vie — fonds euros + ETF + SCPI");
    if tmi.haute() {
        pousser(&mut r, "PER individuel (TMI ≥ 30 %, horizon retraite)");
    }
    pousser(&mut r, "CTO — or, ETF non éligibles");
    pousser(&mut r, "Plateformes de crowdfunding");
    assert(textes(r@) =~= enveloppes_par_priorite(abondement_employeur, tmi));
    r
}

/// Ce dont dépend le conseil d'enveloppe et de support d'une ligne de la poche 2.
/// Les montants et taux y figurent déjà mis en forme pour l'affichage.
#[derive(Debug, Clone, PartialEq)]
pub struct ContexteEnveloppe {
    pub tmi: Tmi,
    pub esg: bool,
    pub refus_immo_direct: bool,
    /// Temps de gestion retenu pour le foyer.
    pub temps_gestion: TempsGestion,
    /// Immobilier figé (concentration immobilière).
    pub immo_fige: bool,
    /// ETF monde et actions en direct atteignent le plafond de versements du PEA.
    pub pea_plein: bool,
    /// Plafond de versements du PEA, mis en forme (« 150 000 € »).
    pub plafond_pea: String,
    /// Taux du prélèvement forfaitaire unique, mis en forme (« 31,4 % »).
    pub pfu: String,
    /// Montant maximal par projet de crowdfunding, mis en forme.
    pub plafond_par_projet: String,
}

/// Enveloppe et support conseillés pour la ligne `l`.
pub open spec fn conseil(l: Ligne, c: ContexteEnveloppe) -> (Seq<char>, Seq<char>) {
    match l {
        Ligne::EtfMonde => (
            if c.pea_plein {
                "PEA plein : assurance-vie, puis CTO"@
            } else {
                "PEA (jusqu'à "@ + c.plafond_pea@ + " de versements), puis AV, puis CTO"@
            },
            if c.esg {
                "1 ETF MSCI World SRI / ESG capitalisant (version éligible PEA)"@
            } else {
                "1 ETF MSCI World (ou ACWI) capitalisant, version éligible PEA — pas de doublon S&P 500"@
            },
        ),
        Ligne::FondsEurosObligations => (
            if c.tmi.taux() <= 11 {
                "Assurance-vie (fonds euros) ; ETF obligataire court terme possible"@
            } else {
                "Assurance-vie (fonds euros) ; ETF monétaire pour le cash du PEA"@
            },
            "Fonds euros (frais de gestion ≤ 0,6 %) ; ETF obligataire euro court terme"@,
        ),
        Ligne::Immobilier => if c.immo_fige {
            (
                "Aucun nouvel apport"@,
                "Conserver, vendre ou arbitrer l'existant (poids immobilier trop élevé)"@,
            )
        } else {
            (
                if c.tmi.taux() >= 30 {
                    "SCPI en assurance-vie ou PER — jamais en direct (TMI ≥ 30 %)"@
                } else if c.tmi.taux() <= 11 {
                    "SCPI en direct possible (TMI ≤ 11 %) ou en AV"@
                } else {
                    "SCPI en assurance-vie de préférence"@
                },
                if c.temps_gestion == TempsGestion::Faible || c.refus_immo_direct {
                    "2–3 SCPI diversifiées/européennes sans frais d'entrée, ou ETF immobilier coté"@
                } else {
                    "SCPI ; locatif direct uniquement financé à crédit (levier)"@
                },
            )
        },
        Ligne::Or => ("CTO (parfois disponible en AV)"@, "ETC or physique"@),
        Ligne::ActionsDirectes => (
            "PEA"@,
            "≤ 10 lignes, grandes capitalisations — budget « erreur acceptable »"@,
        ),
        Ligne::Crowdfunding => (
            "Direct (PFU "@ + c.pfu@ + ")"@,
            if c.immo_fige {
                "Énergies renouvelables uniquement (Enerfip, Lendosphère…)"@
            } else {
                "Plateformes agréées PSFP : ≥ 20 projets, ≥ 3 plateformes, ≤ "@ + c.plafond_par_projet@
                    + " par projet, mixer immo (avec sûretés) et ENR"@
            },
        ),
        Ligne::Crypto => ("Plateforme régulée (MiCA) / CTO"@, "BTC/ETH — satellite ≤ 3 %"@),
        Ligne::PrivateEquity => ("—"@, "Non recommandé par la stratégie (satellite)"@),
    }
}

fn texte(s: &str) -> (r: String)
    ensures
        r@ == s@,
{
    String::from_str(s)
}

fn encadre(avant: &str, milieu: &String, apres: &str) -> (r: String)
    ensures
        r@ == avant@ + milieu@ + apres@,
{
    String::from_str(avant).concat(milieu.as_str()).concat(apres)
}

/// Conseils pour l'immobilier : rien de nouveau s'il est figé ; sinon, un foyer qui
/// refuse l'immobilier direct ou dispose de peu de temps n'est orienté que vers les
/// SCPI ou l'ETF immobilier coté (jamais le locatif direct), et l'enveloppe suit la
/// TMI (assurance-vie ou PER dès 30 %, direct possible jusqu'à 11 %).
pub proof fn conseil_immobilier(c: ContexteEnveloppe)
    ensures
        c.immo_fige ==> conseil(Ligne::Immobilier, c) == (
            "Aucun nouvel apport"@,
            "Conserver, vendre ou arbitrer l'existant (poids immobilier trop élevé)"@,
        ),
        !c.immo_fige && (c.refus_immo_direct || c.temps_gestion == TempsGestion::Faible)
            ==> conseil(Ligne::Immobilier, c).1
            == "2–3 SCPI diversifiées/européennes sans frais d'entrée, ou ETF immobilier coté"@,
        !c.immo_fige && !c.refus_immo_direct && c.temps_gestion != TempsGestion::Faible
            ==> conseil(Ligne::Immobilier, c).1
            == "SCPI ; locatif direct uniquement financé à crédit (levier)"@,
        !c.immo_fige && (c.tmi == Tmi::T30 || c.tmi == Tmi::T41 || c.tmi == Tmi::T45)
            ==> conseil(Ligne::Immobilier, c).0
            == "SCPI en assurance-vie ou PER — jamais en direct (TMI ≥ 30 %)"@,
        !c.immo_fige && (c.tmi == Tmi::T0 || c.tmi == Tmi::T11) ==> conseil(Ligne::Immobilier, c).0
            == "SCPI en direct possible (TMI ≤ 11 %) ou en AV"@,
{
}

/// Le refus de l'immobilier direct donne le même support immobilier quel que soit
/// le temps de gestion du foyer.
pub proof fn refus_direct_sans_effet_du_temps(c: ContexteEnveloppe, t: TempsGestion)
    requires
        c.refus_immo_direct,
    ensures
        conseil(Ligne::Immobilier, c).1 == conseil(Ligne::Immobilier, ContexteEnveloppe { temps_gestion: t, ..c }).1,
{
    conseil_immobilier(c);
    conseil_immobilier(ContexteEnveloppe { temps_gestion: t, ..c });
}

/// Conseils pour l'ETF monde : PEA tant qu'il n'est pas plein ; version ESG si le
/// foyer la demande.
pub proof fn conseil_etf_monde(c: ContexteEnveloppe)
    ensures
        c.pea_plein ==> conseil(Ligne::EtfMonde, c).0 == "PEA plein : assurance-vie, puis CTO"@,
        !c.pea_plein ==> conseil(Ligne::EtfMonde, c).0 == "PEA (jusqu'à "@ + c.plafond_pea@
            + " de versements), puis AV, puis CTO"@,
        c.esg ==> conseil(Ligne::EtfMonde, c).1
            == "1 ETF MSCI World SRI / ESG capitalisant (version éligible PEA)"@,
{
}

/// Conseils pour les fonds euros et le crowdfunding : ETF obligataire court terme
/// jusqu'à 11 % de TMI, ETF monétaire au-delà ; quand l'immobilier est figé, le
/// crowdfunding se limite aux énergies renouvelables.
pub proof fn conseil_fonds_euros_et_crowdfunding(c: ContexteEnveloppe)
    ensures
        (c.tmi == Tmi::T0 || c.tmi == Tmi::T11) ==> conseil(Ligne::FondsEurosObligations, c).0
            == "Assurance-vie (fonds euros) ; ETF obligataire court terme possible"@,
        (c.tmi == Tmi::T30 || c.tmi == Tmi::T41 || c.tmi == Tmi::T45) ==> conseil(
            Ligne::FondsEurosObligations,
            c,
        ).0 == "Assurance-vie (fonds euros) ; ETF monétaire pour le cash du PEA"@,
        c.immo_fige ==> conseil(Ligne::Crowdfunding, c).1
            == "Énergies renouvelables uniquement (Enerfip, Lendosphère…)"@,
        conseil(Ligne::Crowdfunding, c).0 == "Direct (PFU "@ + c.pfu@ + ")"@,
{
}

/// Enveloppe et support conseillés pour une ligne de la poche 2.
pub fn enveloppe_et_support(l: Ligne, c: &ContexteEnveloppe) -> (r: (String, String))
    ensures
        (r.0@, r.1@) == conseil(l, *c),
        l == Ligne::Immobilier && !c.immo_fige && (c.refus_immo_direct || c.temps_gestion
            == TempsGestion::Faible) ==> r.1@
            == "2–3 SCPI diversifiées/européennes sans frais d'entrée, ou ETF immobilier coté"@,
        l == Ligne::Immobilier && c.immo_fige ==> r.0@ == "Aucun nouvel apport"@,
{
    proof {
        conseil_immobilier(*c);
    }
    match l {
        Ligne::EtfMonde => (
            if c.pea_plein {
                texte("PEA plein : assurance-vie, puis CTO")
            } else {
                encadre("PEA (jusqu'à ", &c.plafond_pea, " de versements), puis AV, puis CTO")
            },
            if c.esg {
                texte("1 ETF MSCI World SRI / ESG capitalisant (version éligible PEA)")
            } else {
                texte(
                    "1 ETF MSCI World (ou ACWI) capitalisant, version éligible PEA — pas de doublon S&P 500",
                )
            },
        ),
        Ligne::FondsEurosObligations => (
            if c.tmi.basse() {
                texte("Assurance-vie (fonds euros) ; ETF obligataire court terme possible")
            } else {
                texte("Assurance-vie (fonds euros) ; ETF monétaire pour le cash du PEA")
            },
            texte("Fonds euros (frais de gestion ≤ 0,6 %) ; ETF obligataire euro court terme"),
        ),
        Ligne::Immobilier => if c.immo_fige {
            (
                texte("Aucun nouvel apport"),
                texte("Conserver, vendre ou arbitrer l'existant (poids immobilier trop élevé)"),
            )
        } else {
            (
                if c.tmi.haute() {
                    texte("SCPI en assurance-vie ou PER — jamais en direct (TMI ≥ 30 %)")
                } else if c.tmi.basse() {
                    texte("SCPI en direct possible (TMI ≤ 11 %) ou en AV")
                } else {
                    texte("SCPI en assurance-vie de préférence")
                },
                if c.temps_gestion == TempsGestion::Faible || c.refus_immo_direct {
                    texte(
                        "2–3 SCPI diversifiées/européennes sans frais d'entrée, ou ETF immobilier coté",
                    )
                } else {
                    texte("SCPI ; locatif direct uniquement financé à crédit (levier)")
                },
            )
        },
        Ligne::Or => (texte("CTO (parfois disponible en AV)"), texte("ETC or physique")),
        Ligne::ActionsDirectes => (
            texte("PEA"),
            texte("≤ 10 lignes, grandes capitalisations — budget « erreur acceptable »"),
        ),
        Ligne::Crowdfunding => (
            encadre("Direct (PFU ", &c.pfu, ")"),
            if c.immo_fige {
                texte("Énergies renouvelables uniquement (Enerfip, Lendosphère…)")
            } else {
                encadre(
                    "Plateformes agréées PSFP : ≥ 20 projets, ≥ 3 plateformes, ≤ ",
                    &c.plafond_par_projet,
                    " par projet, mixer immo (avec sûretés) et ENR",
                )
            },
        ),
        Ligne::Crypto => (texte("Plateforme régulée (MiCA) / CTO"), texte("BTC/ETH — satellite ≤ 3 %")),
        Ligne::PrivateEquity => (texte("—"), texte("Non recommandé par la stratégie (satellite)")),
    }
}

/// Les alertes, vues comme des paires (gravité, message).
pub open spec fn vues_alertes(v: Seq<Alerte>) -> Seq<(Gravite, Seq<char>)> {
    v.map_values(|a: Alerte| (a.gravite, a.message@))
}

/// Alertes sur l'abondement employeur, la tranche d'imposition et une échéance
/// revenus passifs proche, dans cet ordre.
pub open spec fn alertes_foyer(
    abondement_employeur: bool,
    tmi: Tmi,
    plafond_per: Seq<char>,
    h_fire: u32,
    annees_derisquage: u32,
    annees_coussin: u32,
    profil: Profil,
) -> Seq<(Gravite, Seq<char>)> {
    (if abondement_employeur {
        seq![
            (
                Gravite::Info,
                "Abondement PEE/PER employeur : à capter en priorité, avant tout autre placement."@,
            ),
        ]
    } else {
        Seq::empty()
    }) + (if tmi.taux() >= 30 {
        seq![
            (
                Gravite::Info,
                "TMI "@ + decimal(tmi.taux() as nat)
                    + " % : activer un PER pour la part retraite (déduction jusqu'à "@ + plafond_per
                    + " des revenus) ; SCPI et obligations en enveloppe capitalisante."@,
            ),
        ]
    } else if tmi.taux() <= 11 {
        seq![(Gravite::Info, "TMI ≤ 11 % : PER peu utile ; SCPI en direct envisageable."@)]
    } else {
        Seq::empty()
    }) + (if 0 < h_fire <= annees_derisquage {
        seq![
            (
                Gravite::Attention,
                "Échéance dans "@ + decimal(h_fire as nat)
                    + " an(s) : passer la poche 2 au profil "@ + (if profil == Profil::Dynamique {
                    Profil::Equilibre
                } else {
                    Profil::Prudent
                }).texte() + " (risque de séquence) et constituer "@ + decimal(annees_coussin as nat)
                    + " ans de retraits en fonds euros."@,
            ),
        ]
    } else {
        Seq::empty()
    })
}

/// Alertes du foyer : l'alerte d'abondement en tête si un adulte y a droit, puis une
/// alerte fiscale (PER dès 30 %, PER peu utile jusqu'à 11 %) ; quand l'échéance des
/// revenus passifs est proche (non nulle, au plus les années de dérisquage), une
/// dernière alerte, la seule de gravité « attention », demande de passer au profil
/// d'un cran plus prudent que le profil retenu (`q`, de rang inférieur d'un cran,
/// Prudent restant Prudent).
pub proof fn alertes_du_foyer(
    abondement_employeur: bool,
    tmi: Tmi,
    plafond_per: Seq<char>,
    h_fire: u32,
    annees_derisquage: u32,
    annees_coussin: u32,
    profil: Profil,
    q: Profil,
)
    requires
        q.rang() == if profil.rang() == 0 { 0 } else { (profil.rang() - 1) as nat },
    ensures
        ({
            let s = alertes_foyer(
                abondement_employeur,
                tmi,
                plafond_per,
                h_fire,
                annees_derisquage,
                annees_coussin,
                profil,
            );
            let a: int = if abondement_employeur { 1 } else { 0 };
            let proche = 0 < h_fire && h_fire <= annees_derisquage;
            &&& s.len() == a + 1 + if proche { 1int } else { 0 }
            &&& abondement_employeur ==> s[0] == (
                Gravite::Info,
                "Abondement PEE/PER employeur : à capter en priorité, avant tout autre placement."@,
            )
            &&& s[a].0 == Gravite::Info
            &&& (tmi == Tmi::T30 || tmi == Tmi::T41 || tmi == Tmi::T45) ==> s[a].1 == "TMI "@
                + decimal(tmi.taux() as nat)
                + " % : activer un PER pour la part retraite (déduction jusqu'à "@ + plafond_per
                + " des revenus) ; SCPI et obligations en enveloppe capitalisante."@
            &&& (tmi == Tmi::T0 || tmi == Tmi::T11) ==> s[a].1
                == "TMI ≤ 11 % : PER peu utile ; SCPI en direct envisageable."@
            &&& proche ==> s[a + 1] == (
                Gravite::Attention,
                "Échéance dans "@ + decimal(h_fire as nat) + " an(s) : passer la poche 2 au profil "@
                    + q.texte() + " (risque de séquence) et constituer "@ + decimal(
                    annees_coussin as nat,
                ) + " ans de retraits en fonds euros."@,
            )
            &&& forall|i: int| 0 <= i < s.len() && #[trigger] s[i].0 == Gravite::Attention ==> proche
                && i == a + 1
        }),
{
}

fn alerte(alertes: &mut Vec<Alerte>, gravite: Gravite, message: String)
    ensures
        vues_alertes(final(alertes)@) == vues_alertes(old(alertes)@).push((gravite, message@)),
{
    let ghost avant = alertes@;
    alertes.push(Alerte { gravite, message });
    assert(vues_alertes(alertes@) =~= vues_alertes(avant).push((gravite, message@)));
}

/// Ajoute les alertes sur l'abondement employeur, la TMI (le plafond de déduction
/// PER étant déjà mis en forme) et l'échéance proche (horizon revenus passifs non
/// nul et au plus égal aux années de dérisquage ; `profil` est le profil retenu).
pub fn ajouter_alertes_foyer(
    alertes: &mut Vec<Alerte>,
    abondement_employeur: bool,
    tmi: Tmi,
    plafond_per: &String,
    h_fire: u32,
    annees_derisquage: u32,
    annees_coussin: u32,
    profil: Profil,
)
    ensures
        vues_alertes(final(alertes)@) == vues_alertes(old(alertes)@) + alertes_foyer(
            abondement_employeur,
            tmi,
            plafond_per@,
            h_fire,
            annees_derisquage,
            annees_coussin,
            profil,
        ),
        forall|q: Profil|
            0 < h_fire <= annees_derisquage && #[trigger] q.rang() == (if profil.rang() == 0 {
                0
            } else {
                (profil.rang() - 1) as nat
            }) ==> vues_alertes(final(alertes)@).last() == (
                Gravite::Attention,
                "Échéance dans "@ + decimal(h_fire as nat) + " an(s) : passer la poche 2 au profil "@
                    + q.texte() + " (risque de séquence) et constituer "@ + decimal(
                    annees_coussin as nat,
                ) + " ans de retraits en fonds euros."@,
            ),
{
    let ghost avant = vues_alertes(alertes@);
    if abondement_employeur {
        alerte(
            alertes,
            Gravite::Info,
            String::from_str(
                "Abondement PEE/PER employeur : à capter en priorité, avant tout autre placement.",
            ),
        );
    }
    let ghost apres_abondement = vues_alertes(alertes@);
    if tmi.haute() {
        let m = String::from_str("TMI ").concat(texte_entier(tmi.pct() as usize).as_str()).concat(
            " % : activer un PER pour la part retraite (déduction jusqu'à ",
        ).concat(plafond_per.as_str()).concat(
            " des revenus) ; SCPI et obligations en enveloppe capitalisante.",
        );
        alerte(alertes, Gravite::Info, m);
    } else if tmi.basse() {
        alerte(
            alertes,
            Gravite::Info,
            String::from_str("TMI ≤ 11 % : PER peu utile ; SCPI en direct envisageable."),
        );
    }
    let ghost apres_tmi = vues_alertes(alertes@);
    if h_fire > 0 && h_fire <= annees_derisquage {
        let m = String::from_str("Échéance dans ").concat(texte_entier(h_fire as usize).as_str()).concat(
            " an(s) : passer la poche 2 au profil ",
        ).concat(profil.inferieur().libelle()).concat(" (risque de séquence) et constituer ").concat(
            texte_entier(annees_coussin as usize).as_str(),
        ).concat(" ans de retraits en fonds euros.");
        alerte(alertes, Gravite::Attention, m);
    }
    assert forall|q: Profil|
        0 < h_fire <= annees_derisquage && #[trigger] q.rang() == (if profil.rang() == 0 {
            0
        } else {
            (profil.rang() - 1) as nat
        }) implies (avant + alertes_foyer(
            abondement_employeur,
            tmi,
            plafond_per@,
            h_fire,
            annees_derisquage,
            annees_coussin,
            profil,
        )).last() == (
            Gravite::Attention,
            "Échéance dans "@ + decimal(h_fire as nat) + " an(s) : passer la poche 2 au profil "@
                + q.texte() + " (risque de séquence) et constituer "@ + decimal(annees_coussin as nat)
                + " ans de retraits en fonds euros."@,
        ) by {
        alertes_du_foyer(
            abondement_employeur,
            tmi,
            plafond_per@,
            h_fire,
            annees_derisquage,
            annees_coussin,
            profil,
            q,
        );
    }
    assert(vues_alertes(alertes@) =~= avant + alertes_foyer(
        abondement_employeur,
        tmi,
        plafond_per@,
        h_fire,
        annees_derisquage,
        annees_coussin,
        profil,
    ));
}

/// Les textes joints par « , ».
pub open spec fn joints(s: Seq<Seq<char>>) -> Seq<char>
    decreases s.len(),
{
    if s.len() == 0 {
        Seq::empty()
    } else if s.len() == 1 {
        s[0]
    } else {
        joints(s.drop_last()) + ", "@ + s.last()
    }
}

pub open spec fn de_tolerance(t: u8) -> spec_fn((String, u8)) -> bool {
    |a: (String, u8)| a.1 == t
}

/// Les prénoms des adultes (prénom, tolérance) dont la tolérance vaut `t`, joints.
pub open spec fn prenoms_de_tolerance(adultes: Seq<(String, u8)>, t: u8) -> Seq<char> {
    joints(adultes.filter(de_tolerance(t)).map_values(|a: (String, u8)| a.0@))
}

/// Le message de l'alerte sur des rapports au risque très différents.
pub open spec fn message_tolerances(adultes: Seq<(String, u8)>, f: ProfilFoyer) -> Seq<char> {
    "Rapports au risque très différents dans le foyer ("@ + prenoms_de_tolerance(adultes, f.tol_risque)
        + " : "@ + decimal(f.tol_risque as nat) + "/5, "@ + prenoms_de_tolerance(adultes, f.tol_max)
        + " : "@ + decimal(f.tol_max as nat)
        + "/5) : le plus prudent est retenu. À discuter ensemble avant d'investir."@
}

fn prenoms(adultes: &Vec<(String, u8)>, t: u8) -> (r: String)
    ensures
        r@ == prenoms_de_tolerance(adultes@, t),
{
    let ghost p = de_tolerance(t);
    let ghost nom = |a: (String, u8)| a.0@;
    let mut r = String::new();
    let mut aucun = true;
    let mut i: usize = 0;
    assert(adultes@.take(0) =~= Seq::<(String, u8)>::empty());
    proof {
        reveal_with_fuel(Seq::filter, 1);
    }
    assert(adultes@.take(0).filter(p).map_values(nom) =~= Seq::<Seq<char>>::empty());
    while i < adultes.len()
        invariant
            i <= adultes.len(),
            p == de_tolerance(t),
            nom == (|a: (String, u8)| a.0@),
            r@ == joints(adultes@.take(i as int).filter(p).map_values(nom)),
            aucun == (adultes@.take(i as int).filter(p).len() == 0),
        decreases adultes.len() - i,
    {
        let ghost deja = adultes@.take(i as int);
        let ghost x = adultes@[i as int];
        assert(adultes@.take(i + 1) =~= deja.push(x));
        proof {
            deja.lemma_filter_push(x, p);
        }
        let ghost avant = deja.filter(p).map_values(nom);
        if adultes[i].1 == t {
            assert(deja.push(x).filter(p).map_values(nom) =~= avant.push(x.0@));
            if aucun {
                assert(avant.push(x.0@).drop_last() =~= avant);
                r.append(adultes[i].0.as_str());
                aucun = false;
            } else {
                assert(avant.push(x.0@).drop_last() =~= avant);
                r.append(", ");
                r.append(adultes[i].0.as_str());
            }
        }
        i = i + 1;
    }
    assert(adultes@.take(adultes.len() as int) =~= adultes@);
    r
}

/// Alerte quand les rapports au risque des adultes diffèrent de 2 points ou plus :
/// elle nomme les adultes de la tolérance retenue et ceux de la plus haute.
pub fn alerte_tolerances(adultes: &Vec<(String, u8)>, f: &ProfilFoyer) -> (r: Option<Alerte>)
    ensures
        r is Some <==> (f.en_couple && f.tol_max >= f.tol_risque + 2),
        r matches Some(a) ==> a.gravite == Gravite::Attention && a.message@ == message_tolerances(
            adultes@,
            *f,
        ),
{
    if crate::model::tolerances_divergentes(f) {
        let m = String::from_str("Rapports au risque très différents dans le foyer (").concat(
            prenoms(adultes, f.tol_risque).as_str(),
        ).concat(" : ").concat(texte_entier(f.tol_risque as usize).as_str()).concat("/5, ").concat(
            prenoms(adultes, f.tol_max).as_str(),
        ).concat(" : ").concat(texte_entier(f.tol_max as usize).as_str()).concat(
            "/5) : le plus prudent est retenu. À discuter ensemble avant d'investir.",
        );
        Some(Alerte { gravite: Gravite::Attention, message: m })
    } else {
        None
    }
}

} // verus!
