//! Règles de validation qui portent sur les effectifs, les âges, les notes et
//! les durées de la saisie, avec leurs messages.

use vstd::prelude::*;

use crate::model::ProfilAdulte;

verus! {

/// Les messages, vus comme des suites de caractères.
pub open spec fn textes(v: Seq<String>) -> Seq<Seq<char>> {
    v.map_values(|s: String| s@)
}

/// Caractères qui ont la propriété Unicode White_Space.
pub open spec fn espace(c: char) -> bool {
    let u = c as u32;
    ||| 0x09 <= u <= 0x0d
    ||| u == 0x20
    ||| u == 0x85
    ||| u == 0xa0
    ||| u == 0x1680
    ||| 0x2000 <= u <= 0x200a
    ||| u == 0x2028
    ||| u == 0x2029
    ||| u == 0x202f
    ||| u == 0x205f
    ||| u == 0x3000
}

/// Un texte vide ou fait seulement d'espaces.
pub open spec fn blanc(s: Seq<char>) -> bool {
    forall|i: int| 0 <= i < s.len() ==> espace(#[trigger] s[i])
}

/// Chiffre décimal de `d` (de 0 à 9).
pub open spec fn chiffre(d: nat) -> char {
    (48 + d) as char
}

/// Écriture décimale d'un entier naturel, sans zéro de tête.
pub open spec fn decimal(n: nat) -> Seq<char>
    decreases n,
{
    if n < 10 {
        seq![chiffre(n)]
    } else {
        decimal(n / 10).push(chiffre(n % 10))
    }
}

/// Appelle `char::is_whitespace`, qui d'après sa documentation répond vrai
/// exactement pour les caractères de propriété Unicode White_Space (la liste de
/// `espace`).
#[verifier::external_body]
fn est_espace(c: char) -> (r: bool)
    ensures
        r == espace(c),
{
    c.is_whitespace()
}

/// Appelle `ToString::to_string` sur un `usize`, dont la documentation (via
/// `Display`) donne l'écriture décimale sans zéro de tête.
#[verifier::external_body]
pub(crate) fn texte_entier(n: usize) -> (r: String)
    ensures
        r@ == decimal(n as nat),
{
    n.to_string()
}

/// Le texte est vide ou ne contient que des espaces.
pub fn est_blanc(s: &str) -> (r: bool)
    ensures
        r == blanc(s@),
{
    let n = s.unicode_len();
    let mut i: usize = 0;
    while i < n
        invariant
            n == s@.len(),
            i <= n,
            forall|k: int| 0 <= k < i ==> espace(#[trigger] s@[k]),
        decreases n - i,
    {
        let c = s.get_char(i);
        if !est_espace(c) {
            assert(!espace(s@[i as int]));
            return false;
        }
        i = i + 1;
    }
    true
}

/// Nom affiché dans les messages : le prénom ou libellé saisi, ou à défaut
/// « `defaut` `rang + 1` » (« Adulte 2 », « Projet 1 », …).
pub fn nom_affiche(saisi: &str, defaut: &str, rang: usize) -> (r: String)
    requires
        rang < usize::MAX,
    ensures
        r@ == if blanc(saisi@) {
            defaut@ + " "@ + decimal(rang as nat + 1)
        } else {
            saisi@
        },
{
    if est_blanc(saisi) {
        let numero = texte_entier(rang + 1);
        let r = String::from_str(defaut).concat(" ").concat(numero.as_str());
        r
    } else {
        String::from_str(saisi)
    }
}

fn ajouter(e: &mut Vec<String>, m: String)
    ensures
        textes(final(e)@) == textes(old(e)@).push(m@),
{
    let ghost avant = e@;
    e.push(m);
    assert(textes(e@) =~= textes(avant).push(m@));
}

fn message(nom: &str, suite: &str) -> (r: String)
    ensures
        r@ == nom@ + suite@,
{
    String::from_str(nom).concat(suite)
}

/// Le foyer compte au moins un adulte et au plus six.
pub fn controler_nombre_adultes(e: &mut Vec<String>, n: usize)
    ensures
        textes(final(e)@) == textes(old(e)@) + if n == 0 {
            seq!["Le foyer doit compter au moins un adulte."@]
        } else if n > 6 {
            seq!["6 adultes maximum."@]
        } else {
            Seq::empty()
        },
{
    let ghost avant = textes(e@);
    if n == 0 {
        ajouter(e, String::from_str("Le foyer doit compter au moins un adulte."));
    }
    if n > 6 {
        ajouter(e, String::from_str("6 adultes maximum."));
    }
    assert(textes(e@) =~= avant + if n == 0 {
        seq!["Le foyer doit compter au moins un adulte."@]
    } else if n > 6 {
        seq!["6 adultes maximum."@]
    } else {
        Seq::empty()
    });
}

/// Les erreurs de saisie d'un adulte nommé `nom`, dans l'ordre : âge (16 à
/// 100 ans), tolérance au risque (1 à 5), stabilité des revenus (1 à 3).
pub open spec fn erreurs_adulte(nom: Seq<char>, p: ProfilAdulte) -> Seq<Seq<char>> {
    (if 16 <= p.age <= 100 {
        Seq::empty()
    } else {
        seq![nom + " : l'âge doit être compris entre 16 et 100 ans."@]
    }) + (if 1 <= p.tol_risque <= 5 {
        Seq::empty()
    } else {
        seq![nom + " : la tolérance au risque doit être comprise entre 1 et 5."@]
    }) + (if 1 <= p.stab_revenus <= 3 {
        Seq::empty()
    } else {
        seq![nom + " : la stabilité des revenus doit être comprise entre 1 et 3."@]
    })
}

/// Un adulte est accepté exactement quand il a de 16 à 100 ans, une tolérance de
/// 1 à 5 et une stabilité de 1 à 3 ; chaque valeur hors bornes donne un message,
/// dans l'ordre âge, tolérance, stabilité.
pub proof fn bornes_adulte(nom: Seq<char>, p: ProfilAdulte)
    ensures
        ({
            let m = erreurs_adulte(nom, p);
            let ea: int = if p.age < 16 || p.age > 100 { 1 } else { 0 };
            let et: int = if p.tol_risque < 1 || p.tol_risque > 5 { 1 } else { 0 };
            let es: int = if p.stab_revenus < 1 || p.stab_revenus > 3 { 1 } else { 0 };
            &&& m.len() == ea + et + es
            &&& ea == 1 ==> m[0] == nom + " : l'âge doit être compris entre 16 et 100 ans."@
            &&& et == 1 ==> m[ea] == nom + " : la tolérance au risque doit être comprise entre 1 et 5."@
            &&& es == 1 ==> m[ea + et] == nom
                + " : la stabilité des revenus doit être comprise entre 1 et 3."@
        }),
{
}

/// Contrôle l'âge, la tolérance au risque et la stabilité des revenus d'un adulte.
pub fn controler_adulte(e: &mut Vec<String>, nom: &str, p: &ProfilAdulte)
    ensures
        textes(final(e)@) == textes(old(e)@) + erreurs_adulte(nom@, *p),
        final(e)@.len() == old(e)@.len() + (if p.age < 16 || p.age > 100 { 1int } else { 0 }) + (
        if p.tol_risque < 1 || p.tol_risque > 5 { 1int } else { 0 }) + (if p.stab_revenus < 1
            || p.stab_revenus > 3 { 1int } else { 0 }),
{
    proof {
        bornes_adulte(nom@, *p);
    }
    let ghost avant = textes(e@);
    if !(16 <= p.age && p.age <= 100) {
        ajouter(e, message(nom, " : l'âge doit être compris entre 16 et 100 ans."));
    }
    let ghost apres_age = textes(e@);
    if !(1 <= p.tol_risque && p.tol_risque <= 5) {
        ajouter(e, message(nom, " : la tolérance au risque doit être comprise entre 1 et 5."));
    }
    let ghost apres_tol = textes(e@);
    if !(1 <= p.stab_revenus && p.stab_revenus <= 3) {
        ajouter(e, message(nom, " : la stabilité des revenus doit être comprise entre 1 et 3."));
    }
    assert(textes(e@) =~= avant + erreurs_adulte(nom@, *p));
}

/// Au plus trente projets.
pub fn controler_nombre_projets(e: &mut Vec<String>, n: usize)
    ensures
        textes(final(e)@) == textes(old(e)@) + if n > 30 {
            seq!["30 projets maximum."@]
        } else {
            Seq::empty()
        },
{
    let ghost avant = textes(e@);
    if n > 30 {
        ajouter(e, String::from_str("30 projets maximum."));
    }
    assert(textes(e@) =~= avant + if n > 30 {
        seq!["30 projets maximum."@]
    } else {
        Seq::empty()
    });
}

/// L'échéance d'un projet est d'au plus soixante ans.
pub fn controler_echeance_projet(e: &mut Vec<String>, nom: &str, dans_ans: u32)
    ensures
        textes(final(e)@) == textes(old(e)@) + if dans_ans > 60 {
            seq![nom@ + " : échéance ≤ 60 ans."@]
        } else {
            Seq::empty()
        },
{
    let ghost avant = textes(e@);
    if dans_ans > 60 {
        ajouter(e, message(nom, " : échéance ≤ 60 ans."));
    }
    assert(textes(e@) =~= avant + if dans_ans > 60 {
        seq![nom@ + " : échéance ≤ 60 ans."@]
    } else {
        Seq::empty()
    });
}

/// L'horizon revenus passifs est d'au plus soixante ans.
pub fn controler_horizon_revenus(e: &mut Vec<String>, h_fire: u32)
    ensures
        textes(final(e)@) == textes(old(e)@) + if h_fire > 60 {
            seq!["L'horizon revenus passifs doit être ≤ 60 ans."@]
        } else {
            Seq::empty()
        },
{
    let ghost avant = textes(e@);
    if h_fire > 60 {
        ajouter(e, String::from_str("L'horizon revenus passifs doit être ≤ 60 ans."));
    }
    assert(textes(e@) =~= avant + if h_fire > 60 {
        seq!["L'horizon revenus passifs doit être ≤ 60 ans."@]
    } else {
        Seq::empty()
    });
}

/// Au plus douze enfants.
pub fn controler_nombre_enfants(e: &mut Vec<String>, n: usize)
    ensures
        textes(final(e)@) == textes(old(e)@) + if n > 12 {
            seq!["12 enfants maximum."@]
        } else {
            Seq::empty()
        },
{
    let ghost avant = textes(e@);
    if n > 12 {
        ajouter(e, String::from_str("12 enfants maximum."));
    }
    assert(textes(e@) =~= avant + if n > 12 {
        seq!["12 enfants maximum."@]
    } else {
        Seq::empty()
    });
}

/// Les erreurs de saisie d'un enfant nommé `nom`, dans l'ordre : âge (au plus
/// 30 ans), durée d'études (1 à 10 ans).
pub open spec fn erreurs_enfant(nom: Seq<char>, age: u32, duree_etudes: u32) -> Seq<Seq<char>> {
    (if age > 30 {
        seq![nom + " : âge ≤ 30 ans."@]
    } else {
        Seq::empty()
    }) + (if 1 <= duree_etudes <= 10 {
        Seq::empty()
    } else {
        seq![nom + " : durée d'études entre 1 et 10 ans."@]
    })
}

/// Un enfant est accepté exactement quand il a au plus 30 ans et de 1 à 10 ans
/// d'études ; chaque valeur hors bornes donne un message, l'âge d'abord.
pub proof fn bornes_enfant(nom: Seq<char>, age: u32, duree_etudes: u32)
    ensures
        ({
            let m = erreurs_enfant(nom, age, duree_etudes);
            let ea: int = if age > 30 { 1 } else { 0 };
            let ed: int = if duree_etudes < 1 || duree_etudes > 10 { 1 } else { 0 };
            &&& m.len() == ea + ed
            &&& ea == 1 ==> m[0] == nom + " : âge ≤ 30 ans."@
            &&& ed == 1 ==> m[ea] == nom + " : durée d'études entre 1 et 10 ans."@
        }),
{
}

/// Contrôle l'âge et la durée d'études d'un enfant.
pub fn controler_enfant(e: &mut Vec<String>, nom: &str, age: u32, duree_etudes: u32)
    ensures
        textes(final(e)@) == textes(old(e)@) + erreurs_enfant(nom@, age, duree_etudes),
        final(e)@.len() == old(e)@.len() + (if age > 30 { 1int } else { 0 }) + (if duree_etudes < 1
            || duree_etudes > 10 { 1int } else { 0 }),
{
    proof {
        bornes_enfant(nom@, age, duree_etudes);
    }
    let ghost avant = textes(e@);
    if age > 30 {
        ajouter(e, message(nom, " : âge ≤ 30 ans."));
    }
    if !(1 <= duree_etudes && duree_etudes <= 10) {
        ajouter(e, message(nom, " : durée d'études entre 1 et 10 ans."));
    }
    assert(textes(e@) =~= avant + erreurs_enfant(nom@, age, duree_etudes));
}

/// Le glide path (donné par ses seuils en années) contient un palier à 0 an.
pub fn controler_glide_path(e: &mut Vec<String>, seuils: &Vec<u32>)
    ensures
        textes(final(e)@) == textes(old(e)@) + if exists|i: int|
            0 <= i < seuils@.len() && #[trigger] seuils@[i] == 0 {
            Seq::empty()
        } else {
            seq!["Le glide path doit contenir un palier à 0 an."@]
        },
{
    let ghost avant = textes(e@);
    let mut present = false;
    let mut i: usize = 0;
    while i < seuils.len()
        invariant
            i <= seuils.len(),
            present == (exists|k: int| 0 <= k < i && #[trigger] seuils@[k] == 0),
        decreases seuils.len() - i,
    {
        if seuils[i] == 0 {
            present = true;
        }
        i = i + 1;
    }
    if !present {
        ajouter(e, String::from_str("Le glide path doit contenir un palier à 0 an."));
    }
    assert(textes(e@) =~= avant + if present {
        Seq::empty()
    } else {
        seq!["Le glide path doit contenir un palier à 0 an."@]
    });
}

} // verus!
