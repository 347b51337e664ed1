//! Poche 2 — barème du score de profil et lignes ouvertes aux apports.

use vstd::prelude::*;

use crate::model::StatutRp;
use crate::params::Ligne;
use crate::poche1::Stabilite;

verus! {

/// Points du score de profil, comptés en demi-points (le score vaut `total / 2`).
#[derive(Debug, Clone, Copy, PartialEq, Eq)]
pub struct BaremeScore {
    /// Tolérance au risque retenue (1 à 5 points).
    pub tolerance: i32,
    /// Horizon revenus passifs : +1 point au-delà de l'horizon long, -1 en deçà de l'horizon court.
    pub horizon: i32,
    /// Stabilité des revenus : +1 point si stables, -1 si instables.
    pub stabilite: i32,
    /// Résidence principale payée : +0,5 point.
    pub residence: i32,
    /// Âge de référence : +0,5 point avant 40 ans, -1 point après 55 ans.
    pub age: i32,
    pub total: i32,
}

/// Le barème du score de profil, en demi-points.
pub open spec fn bareme(
    tol_risque: u8,
    h_fire: u32,
    h_fire_court: u32,
    h_fire_long: u32,
    stabilite: Stabilite,
    rp: StatutRp,
    age: u32,
) -> BaremeScore {
    let tolerance: int = 2 * tol_risque;
    let horizon: int = if h_fire > h_fire_long {
        2
    } else if h_fire < h_fire_court {
        -2
    } else {
        0
    };
    let st: int = match stabilite {
        Stabilite::Stable => 2,
        Stabilite::Instable => -2,
        Stabilite::Intermediaire => 0,
    };
    let residence: int = if rp == StatutRp::ProprietairePayee {
        1
    } else {
        0
    };
    let a: int = if age < 40 {
        1
    } else if age > 55 {
        -2
    } else {
        0
    };
    BaremeScore {
        tolerance: tolerance as i32,
        horizon: horizon as i32,
        stabilite: st as i32,
        residence: residence as i32,
        age: a as i32,
        total: (tolerance + horizon + st + residence + a) as i32,
    }
}

/// Le barème, point par point : 2 demi-points par point de tolérance ; +1 point
/// au-delà de l'horizon long, -1 en deçà de l'horizon court ; +1 point pour des
/// revenus stables, -1 pour des revenus instables ; +0,5 point si la résidence
/// principale est payée ; +0,5 point avant 40 ans, 0 de 40 à 55 ans, -1 point
/// après 55 ans ; le total est la somme des composantes.
pub proof fn bareme_selon_les_seuils(
    tol_risque: u8,
    h_fire: u32,
    h_fire_court: u32,
    h_fire_long: u32,
    stabilite: Stabilite,
    rp: StatutRp,
    age: u32,
)
    ensures
        ({
            let b = bareme(tol_risque, h_fire, h_fire_court, h_fire_long, stabilite, rp, age);
            &&& b.tolerance == 2 * tol_risque
            &&& h_fire > h_fire_long ==> b.horizon == 2
            &&& h_fire <= h_fire_long && h_fire < h_fire_court ==> b.horizon == -2
            &&& h_fire_court <= h_fire <= h_fire_long ==> b.horizon == 0
            &&& stabilite == Stabilite::Stable ==> b.stabilite == 2
            &&& stabilite == Stabilite::Instable ==> b.stabilite == -2
            &&& stabilite == Stabilite::Intermediaire ==> b.stabilite == 0
            &&& rp == StatutRp::ProprietairePayee ==> b.residence == 1
            &&& rp != StatutRp::ProprietairePayee ==> b.residence == 0
            &&& age < 40 ==> b.age == 1
            &&& 40 <= age <= 55 ==> b.age == 0
            &&& age > 55 ==> b.age == -2
            &&& b.total == b.tolerance + b.horizon + b.stabilite + b.residence + b.age
        }),
{
}

/// Un foyer plus âgé n'obtient jamais plus de points d'âge qu'un foyer plus jeune,
/// toutes choses égales par ailleurs.
pub proof fn age_ne_rapporte_pas(
    tol_risque: u8,
    h_fire: u32,
    h_fire_court: u32,
    h_fire_long: u32,
    stabilite: Stabilite,
    rp: StatutRp,
    jeune: u32,
    vieux: u32,
)
    requires
        jeune <= vieux,
    ensures
        bareme(tol_risque, h_fire, h_fire_court, h_fire_long, stabilite, rp, vieux).total <= bareme(
            tol_risque,
            h_fire,
            h_fire_court,
            h_fire_long,
            stabilite,
            rp,
            jeune,
        ).total,
{
    bareme_selon_les_seuils(tol_risque, h_fire, h_fire_court, h_fire_long, stabilite, rp, jeune);
    bareme_selon_les_seuils(tol_risque, h_fire, h_fire_court, h_fire_long, stabilite, rp, vieux);
}

/// Calcule le score de profil du foyer (en demi-points) à partir de la tolérance
/// retenue, de l'horizon revenus passifs, de la stabilité des revenus, du statut
/// de la résidence principale et de l'âge de référence.
pub fn bareme_score(
    tol_risque: u8,
    h_fire: u32,
    h_fire_court: u32,
    h_fire_long: u32,
    stabilite: Stabilite,
    rp: StatutRp,
    age: u32,
) -> (b: BaremeScore)
    ensures
        b == bareme(tol_risque, h_fire, h_fire_court, h_fire_long, stabilite, rp, age),
        b.tolerance == 2 * tol_risque,
        h_fire > h_fire_long ==> b.horizon == 2,
        h_fire <= h_fire_long && h_fire < h_fire_court ==> b.horizon == -2,
        h_fire_court <= h_fire <= h_fire_long ==> b.horizon == 0,
        stabilite == Stabilite::Stable ==> b.stabilite == 2,
        stabilite == Stabilite::Instable ==> b.stabilite == -2,
        stabilite == Stabilite::Intermediaire ==> b.stabilite == 0,
        rp == StatutRp::ProprietairePayee ==> b.residence == 1,
        rp != StatutRp::ProprietairePayee ==> b.residence == 0,
        age < 40 ==> b.age == 1,
        40 <= age <= 55 ==> b.age == 0,
        age > 55 ==> b.age == -2,
        b.total == b.tolerance + b.horizon + b.stabilite + b.residence + b.age,
{
    proof {
        bareme_selon_les_seuils(tol_risque, h_fire, h_fire_court, h_fire_long, stabilite, rp, age);
    }
    let tolerance: i32 = 2 * (tol_risque as i32);
    let horizon: i32 = if h_fire > h_fire_long {
        2
    } else if h_fire < h_fire_court {
        -2
    } else {
        0
    };
    let st: i32 = match stabilite {
        Stabilite::Stable => 2,
        Stabilite::Instable => -2,
        Stabilite::Intermediaire => 0,
    };
    let residence: i32 = match rp {
        StatutRp::ProprietairePayee => 1,
        _ => 0,
    };
    let a: i32 = if age < 40 {
        1
    } else if age > 55 {
        -2
    } else {
        0
    };
    BaremeScore {
        tolerance,
        horizon,
        stabilite: st,
        residence,
        age: a,
        total: tolerance + horizon + st + residence + a,
    }
}

/// Les lignes de la poche 2, dans l'ordre d'affichage.
pub open spec fn lignes() -> Seq<Ligne> {
    seq![
        Ligne::EtfMonde,
        Ligne::FondsEurosObligations,
        Ligne::Immobilier,
        Ligne::Or,
        Ligne::ActionsDirectes,
        Ligne::Crowdfunding,
        Ligne::Crypto,
        Ligne::PrivateEquity,
    ]
}

pub open spec fn hors_de(gelees: Seq<Ligne>) -> spec_fn(Ligne) -> bool {
    |l: Ligne| !gelees.contains(l)
}

fn contient(gelees: &Vec<Ligne>, l: Ligne) -> (r: bool)
    ensures
        r == gelees@.contains(l),
{
    let mut i: usize = 0;
    while i < gelees.len()
        invariant
            i <= gelees.len(),
            forall|k: int| 0 <= k < i ==> #[trigger] gelees@[k] != l,
        decreases gelees.len() - i,
    {
        if gelees[i] == l {
            assert(gelees@[i as int] == l);
            return true;
        }
        i = i + 1;
    }
    false
}

/// Une ligne est ouverte aux apports si et seulement si elle n'est pas gelée ; les
/// lignes ouvertes apparaissent une seule fois chacune.
pub proof fn ouverte_ssi_non_gelee(gelees: Seq<Ligne>, l: Ligne)
    ensures
        lignes().filter(hors_de(gelees)).contains(l) <==> !gelees.contains(l),
        lignes().filter(hors_de(gelees)).no_duplicates(),
{
    broadcast use vstd::seq_lib::group_filter_ensures;

    let t = lignes();
    assert(t[0] == Ligne::EtfMonde && t[1] == Ligne::FondsEurosObligations && t[2] == Ligne::Immobilier
        && t[3] == Ligne::Or && t[4] == Ligne::ActionsDirectes && t[5] == Ligne::Crowdfunding && t[6]
        == Ligne::Crypto && t[7] == Ligne::PrivateEquity);
    assert(t.no_duplicates());
    if !gelees.contains(l) {
        let i: int = match l {
            Ligne::EtfMonde => 0,
            Ligne::FondsEurosObligations => 1,
            Ligne::Immobilier => 2,
            Ligne::Or => 3,
            Ligne::ActionsDirectes => 4,
            Ligne::Crowdfunding => 5,
            Ligne::Crypto => 6,
            Ligne::PrivateEquity => 7,
        };
        assert(t[i] == l);
        t.lemma_filter_contains(hors_de(gelees), i);
    }
    if lignes().filter(hors_de(gelees)).contains(l) {
        t.lemma_filter_contains_rev(hors_de(gelees), l);
    }
    t.filter_lemma(hors_de(gelees));
    filtre_sans_doublon(t, hors_de(gelees));
}

proof fn filtre_sans_doublon(s: Seq<Ligne>, p: spec_fn(Ligne) -> bool)
    requires
        s.no_duplicates(),
    ensures
        s.filter(p).no_duplicates(),
    decreases s.len(),
{
    if s.len() > 0 {
        let d = s.drop_last();
        let x = s.last();
        assert(s =~= d.push(x));
        assert(d.no_duplicates());
        filtre_sans_doublon(d, p);
        d.lemma_filter_push(x, p);
        if p(x) {
            if d.filter(p).contains(x) {
                d.lemma_filter_contains_rev(p, x);
                let j = choose|j: int| 0 <= j < d.len() && d[j] == x;
                assert(s[j] == s[s.len() - 1]);
            }
            let f = d.filter(p).push(x);
            assert forall|i: int, j: int| 0 <= i < f.len() && 0 <= j < f.len() && i != j implies f[i] != f[j] by {
                if j == f.len() - 1 {
                    assert(d.filter(p)[i] == f[i]);
                } else if i == f.len() - 1 {
                    assert(d.filter(p)[j] == f[j]);
                } else {
                    assert(d.filter(p)[i] == f[i] && d.filter(p)[j] == f[j]);
                }
            }
        }
    }
}

/// Les lignes ouvertes aux apports : toutes celles qui ne sont pas gelées, dans
/// l'ordre des lignes.
pub fn lignes_ouvertes(gelees: &Vec<Ligne>) -> (r: Vec<Ligne>)
    ensures
        r@ == lignes().filter(hors_de(gelees@)),
        forall|l: Ligne| #[trigger] r@.contains(l) <==> !gelees@.contains(l),
        r@.no_duplicates(),
{
    proof {
        assert forall|l: Ligne| #[trigger] lignes().filter(hors_de(gelees@)).contains(l) <==> !gelees@.contains(l) by {
            ouverte_ssi_non_gelee(gelees@, l);
        }
        ouverte_ssi_non_gelee(gelees@, Ligne::Or);
    }
    let toutes: Vec<Ligne> = vec![
        Ligne::EtfMonde,
        Ligne::FondsEurosObligations,
        Ligne::Immobilier,
        Ligne::Or,
        Ligne::ActionsDirectes,
        Ligne::Crowdfunding,
        Ligne::Crypto,
        Ligne::PrivateEquity,
    ];
    assert(toutes@ =~= lignes());
    let ghost p = hors_de(gelees@);
    let mut r: Vec<Ligne> = Vec::new();
    let mut i: usize = 0;
    assert(toutes@.take(0) =~= Seq::<Ligne>::empty());
    proof {
        reveal_with_fuel(Seq::filter, 1);
    }
    while i < toutes.len()
        invariant
            i <= toutes.len(),
            toutes@ == lignes(),
            p == hors_de(gelees@),
            r@ == toutes@.take(i as int).filter(p),
        decreases toutes.len() - i,
    {
        let l = toutes[i];
        let ghost deja = toutes@.take(i as int);
        assert(toutes@.take(i + 1) =~= deja + seq![l]);
        proof {
            Seq::filter_distributes_over_add(deja, seq![l], p);
            reveal_with_fuel(Seq::filter, 2);
        }
        if !contient(gelees, l) {
            assert(seq![l].filter(p) =~= seq![l]);
            r.push(l);
        } else {
            assert(seq![l].filter(p) =~= Seq::<Ligne>::empty());
        }
        assert(r@ =~= toutes@.take(i + 1).filter(p));
        i = i + 1;
    }
    assert(toutes@.take(toutes.len() as int) =~= toutes@);
    r
}

} // verus!
