//! Poche 0 (précaution) et poche 1 (sous-poches datées : études des enfants
//! et projets du foyer).

use vstd::prelude::*;

use crate::model::{Priorite, StatutRp};
use crate::output::CategoriePoche;

verus! {

/// Stabilité des revenus du foyer (moyenne pondérée par les revenus, de 1 à 3) :
/// instable jusqu'à 1,5, stable à partir de 2,5.
#[derive(Debug, Clone, Copy, PartialEq, Eq, Structural)]
pub enum Stabilite {
    Instable,
    Intermediaire,
    Stable,
}

/// Durée retenue pour l'épargne de précaution, parmi les trois des hypothèses.
#[derive(Debug, Clone, Copy, PartialEq, Eq, Structural)]
pub enum DureePrecaution {
    Minimum,
    Defaut,
    Maximum,
}

/// Précaution : le maximum si les revenus sont instables, le minimum si la
/// résidence principale est payée et les revenus stables, la durée par défaut sinon.
pub fn duree_precaution(stabilite: Stabilite, rp: StatutRp) -> (r: DureePrecaution)
    ensures
        stabilite == Stabilite::Instable ==> r == DureePrecaution::Maximum,
        stabilite == Stabilite::Stable && rp == StatutRp::ProprietairePayee ==> r
            == DureePrecaution::Minimum,
        stabilite == Stabilite::Intermediaire || (stabilite == Stabilite::Stable && rp
            != StatutRp::ProprietairePayee) ==> r == DureePrecaution::Defaut,
{
    match stabilite {
        Stabilite::Instable => DureePrecaution::Maximum,
        Stabilite::Stable => match rp {
            StatutRp::ProprietairePayee => DureePrecaution::Minimum,
            _ => DureePrecaution::Defaut,
        },
        Stabilite::Intermediaire => DureePrecaution::Defaut,
    }
}

/// Années avant le début des études ; nul pour un enfant qui a déjà l'âge.
pub fn horizon_etudes(age_debut_etudes: u32, age: u32) -> (r: u32)
    ensures
        r == if age >= age_debut_etudes { 0 } else { age_debut_etudes - age },
{
    age_debut_etudes.saturating_sub(age)
}

pub open spec fn texte_enveloppe(horizon: u32, categorie: CategoriePoche) -> Seq<char> {
    if horizon == 0 {
        "Fonds euros / livret (capital sécurisé, disponible)"@
    } else if categorie == CategoriePoche::Etudes {
        "Assurance-vie à frais bas (fonds euros + ETF monde), ouverte tôt pour prendre date ; option AV au nom de l'enfant alimentée par dons"@
    } else if horizon < 5 {
        "Livret / fonds euros d'assurance-vie (horizon court)"@
    } else {
        "Assurance-vie à frais bas (fonds euros + ETF monde)"@
    }
}

/// Enveloppe d'une sous-poche : à échéance immédiate, le capital sécurisé ; pour des
/// études, l'assurance-vie ouverte tôt, quelle que soit l'échéance ; pour un projet,
/// le livret ou le fonds euros à moins de 5 ans, l'assurance-vie au-delà.
pub proof fn enveloppe_selon_categorie_et_echeance(horizon: u32, categorie: CategoriePoche)
    ensures
        horizon == 0 ==> texte_enveloppe(horizon, categorie)
            == "Fonds euros / livret (capital sécurisé, disponible)"@,
        horizon > 0 && categorie == CategoriePoche::Etudes ==> texte_enveloppe(horizon, categorie)
            == "Assurance-vie à frais bas (fonds euros + ETF monde), ouverte tôt pour prendre date ; option AV au nom de l'enfant alimentée par dons"@,
        0 < horizon < 5 && categorie == CategoriePoche::Projet ==> texte_enveloppe(horizon, categorie)
            == "Livret / fonds euros d'assurance-vie (horizon court)"@,
        horizon >= 5 && categorie == CategoriePoche::Projet ==> texte_enveloppe(horizon, categorie)
            == "Assurance-vie à frais bas (fonds euros + ETF monde)"@,
{
}

/// Deux sous-poches d'études à échéance non nulle reçoivent la même enveloppe,
/// quelles que soient leurs échéances.
pub proof fn etudes_meme_enveloppe(h1: u32, h2: u32)
    requires
        h1 > 0,
        h2 > 0,
    ensures
        texte_enveloppe(h1, CategoriePoche::Etudes) == texte_enveloppe(h2, CategoriePoche::Etudes),
{
    enveloppe_selon_categorie_et_echeance(h1, CategoriePoche::Etudes);
    enveloppe_selon_categorie_et_echeance(h2, CategoriePoche::Etudes);
}

/// Enveloppe conseillée pour une sous-poche, selon son échéance et sa catégorie.
pub fn enveloppe_sous_poche(horizon: u32, categorie: CategoriePoche) -> (r: String)
    ensures
        r@ == texte_enveloppe(horizon, categorie),
        horizon == 0 ==> r@ == "Fonds euros / livret (capital sécurisé, disponible)"@,
        horizon > 0 && categorie == CategoriePoche::Etudes ==> r@
            == "Assurance-vie à frais bas (fonds euros + ETF monde), ouverte tôt pour prendre date ; option AV au nom de l'enfant alimentée par dons"@,
        0 < horizon < 5 && categorie == CategoriePoche::Projet ==> r@
            == "Livret / fonds euros d'assurance-vie (horizon court)"@,
        horizon >= 5 && categorie == CategoriePoche::Projet ==> r@
            == "Assurance-vie à frais bas (fonds euros + ETF monde)"@,
{
    proof {
        enveloppe_selon_categorie_et_echeance(horizon, categorie);
    }
    if horizon == 0 {
        String::from_str("Fonds euros / livret (capital sécurisé, disponible)")
    } else if categorie == CategoriePoche::Etudes {
        String::from_str(
            "Assurance-vie à frais bas (fonds euros + ETF monde), ouverte tôt pour prendre date ; option AV au nom de l'enfant alimentée par dons",
        )
    } else if horizon < 5 {
        String::from_str("Livret / fonds euros d'assurance-vie (horizon court)")
    } else {
        String::from_str("Assurance-vie à frais bas (fonds euros + ETF monde)")
    }
}

/// La sous-poche `a` passe avant la sous-poche `b` : priorité plus haute, puis
/// échéance plus proche, puis ordre de saisie.
pub open spec fn passe_avant(cles: Seq<(Priorite, u32)>, a: int, b: int) -> bool {
    ||| cles[a].0.rang() < cles[b].0.rang()
    ||| cles[a].0.rang() == cles[b].0.rang() && cles[a].1 < cles[b].1
    ||| cles[a].0.rang() == cles[b].0.rang() && cles[a].1 == cles[b].1 && a < b
}

/// `ordre` range chaque sous-poche une et une seule fois, par priorité puis par
/// échéance, à clé égale dans l'ordre de saisie.
pub open spec fn ordre_des_sous_poches(cles: Seq<(Priorite, u32)>, ordre: Seq<usize>) -> bool {
    &&& ordre.len() == cles.len()
    &&& forall|i: int| 0 <= i < ordre.len() ==> #[trigger] ordre[i] < cles.len()
    &&& forall|k: usize| k < cles.len() ==> #[trigger] ordre.contains(k)
    &&& forall|i: int, j: int|
        0 <= i < j < ordre.len() ==> passe_avant(cles, #[trigger] ordre[i] as int, #[trigger] ordre[j] as int)
}

/// Dans l'ordre des sous-poches, une sous-poche n'est jamais précédée d'une
/// sous-poche moins prioritaire, ni, à priorité égale, d'une échéance plus lointaine.
pub proof fn priorites_servies_d_abord(cles: Seq<(Priorite, u32)>, ordre: Seq<usize>, i: int, j: int)
    requires
        ordre_des_sous_poches(cles, ordre),
        0 <= i < j < ordre.len(),
    ensures
        cles[ordre[i] as int].0.rang() <= cles[ordre[j] as int].0.rang(),
        cles[ordre[i] as int].0 == cles[ordre[j] as int].0 ==> cles[ordre[i] as int].1 <= cles[ordre[j] as int].1,
{
    assert(passe_avant(cles, ordre[i] as int, ordre[j] as int));
}

fn avant(cles: &Vec<(Priorite, u32)>, a: usize, b: usize) -> (r: bool)
    requires
        a < cles.len(),
        b < cles.len(),
    ensures
        r == passe_avant(cles@, a as int, b as int),
{
    let (pa, ha) = cles[a];
    let (pb, hb) = cles[b];
    let ra = pa.rang_service();
    let rb = pb.rang_service();
    ra < rb || (ra == rb && ha < hb) || (ra == rb && ha == hb && a < b)
}

/// Ordre des sous-poches (clés : priorité, échéance en années) : indices triés par
/// priorité puis par échéance, de façon stable.
pub fn ordre_sous_poches(cles: &Vec<(Priorite, u32)>) -> (ordre: Vec<usize>)
    ensures
        ordre_des_sous_poches(cles@, ordre@),
{
    let n = cles.len();
    let mut ordre: Vec<usize> = Vec::new();
    let mut i: usize = 0;
    while i < n
        invariant
            n == cles.len(),
            i <= n,
            ordre.len() == i,
            forall|q: int| 0 <= q < ordre.len() ==> #[trigger] ordre@[q] < i,
            forall|k: usize| k < i ==> #[trigger] ordre@.contains(k),
            forall|q: int, t: int|
                0 <= q < t < ordre.len() ==> passe_avant(cles@, #[trigger] ordre@[q] as int, #[trigger] ordre@[t] as int),
        decreases n - i,
    {
        let mut p: usize = 0;
        while p < ordre.len() && !avant(cles, i, ordre[p])
            invariant
                n == cles.len(),
                i < n,
                p <= ordre.len(),
                forall|q: int| 0 <= q < ordre.len() ==> #[trigger] ordre@[q] < i,
                forall|q: int| 0 <= q < p ==> passe_avant(cles@, #[trigger] ordre@[q] as int, i as int),
            decreases ordre.len() - p,
        {
            p = p + 1;
        }
        let ghost avant_insertion = ordre@;
        proof {
            avant_insertion.insert_ensures(p as int, i);
        }
        ordre.insert(p, i);
        assert forall|k: usize| k < i + 1 implies #[trigger] ordre@.contains(k) by {
            if k == i {
                assert(ordre@[p as int] == i);
            } else {
                assert(avant_insertion.contains(k));
                let q = choose|q: int| 0 <= q < avant_insertion.len() && avant_insertion[q] == k;
                if q < p {
                    assert(ordre@[q] == k);
                } else {
                    assert(ordre@[q + 1] == k);
                }
            }
        }
        assert forall|q: int, t: int|
            0 <= q < t < ordre.len() implies passe_avant(cles@, #[trigger] ordre@[q] as int, #[trigger] ordre@[t] as int) by {
            if t < p {
                assert(ordre@[q] == avant_insertion[q] && ordre@[t] == avant_insertion[t]);
            } else if t == p {
                assert(ordre@[q] == avant_insertion[q]);
            } else if q < p {
                assert(ordre@[q] == avant_insertion[q] && ordre@[t] == avant_insertion[t - 1]);
            } else if q == p {
                assert(ordre@[t] == avant_insertion[t - 1]);
                assert(passe_avant(cles@, i as int, avant_insertion[p as int] as int));
                if t - 1 > p {
                    assert(passe_avant(cles@, avant_insertion[p as int] as int, avant_insertion[t - 1] as int));
                }
            } else {
                assert(ordre@[q] == avant_insertion[q - 1] && ordre@[t] == avant_insertion[t - 1]);
            }
        }
        i = i + 1;
    }
    ordre
}

} // verus!
