//! Lignes et profils de la poche 2, et choix du palier du glide path.

use vstd::prelude::*;

verus! {

/// Lignes de la poche 2.
#[derive(Debug, Clone, Copy, PartialEq, Eq, Hash, Structural)]
pub enum Ligne {
    EtfMonde,
    FondsEurosObligations,
    Immobilier,
    Or,
    ActionsDirectes,
    Crowdfunding,
    Crypto,
    PrivateEquity,
}

impl Ligne {
    pub const TOUTES: [Ligne; 8] = [
        Ligne::EtfMonde,
        Ligne::FondsEurosObligations,
        Ligne::Immobilier,
        Ligne::Or,
        Ligne::ActionsDirectes,
        Ligne::Crowdfunding,
        Ligne::Crypto,
        Ligne::PrivateEquity,
    ];

    pub open spec fn texte(self) -> Seq<char> {
        match self {
            Ligne::EtfMonde => "ETF actions monde"@,
            Ligne::FondsEurosObligations => "Fonds euros / obligations"@,
            Ligne::Immobilier => "Immobilier (locatif net + SCPI)"@,
            Ligne::Or => "Or"@,
            Ligne::ActionsDirectes => "Actions en direct"@,
            Ligne::Crowdfunding => "Crowdfunding (immo + ENR)"@,
            Ligne::Crypto => "Crypto"@,
            Ligne::PrivateEquity => "Private equity"@,
        }
    }

    pub fn libelle(self) -> (r: &'static str)
        ensures
            r@ == self.texte(),
    {
        match self {
            Ligne::EtfMonde => "ETF actions monde",
            Ligne::FondsEurosObligations => "Fonds euros / obligations",
            Ligne::Immobilier => "Immobilier (locatif net + SCPI)",
            Ligne::Or => "Or",
            Ligne::ActionsDirectes => "Actions en direct",
            Ligne::Crowdfunding => "Crowdfunding (immo + ENR)",
            Ligne::Crypto => "Crypto",
            Ligne::PrivateEquity => "Private equity",
        }
    }

    /// Actions en direct, crowdfunding, crypto et private equity sont des satellites.
    pub open spec fn satellite(self) -> bool {
        self is ActionsDirectes || self is Crowdfunding || self is Crypto || self is PrivateEquity
    }

    pub fn est_satellite(self) -> (r: bool)
        ensures
            r == self.satellite(),
    {
        match self {
            Ligne::ActionsDirectes | Ligne::Crowdfunding | Ligne::Crypto | Ligne::PrivateEquity => true,
            _ => false,
        }
    }
}

#[derive(Debug, Clone, Copy, PartialEq, Eq, PartialOrd, Ord, Hash, Structural)]
pub enum Profil {
    Prudent,
    Equilibre,
    Dynamique,
}

impl Profil {
    /// Rang de risque : Prudent < Équilibré < Dynamique.
    pub open spec fn rang(self) -> nat {
        match self {
            Profil::Prudent => 0,
            Profil::Equilibre => 1,
            Profil::Dynamique => 2,
        }
    }

    /// Le profil d'un cran plus prudent (Prudent reste Prudent).
    pub fn inferieur(self) -> (r: Profil)
        ensures
            r.rang() == if self.rang() == 0 { 0 } else { (self.rang() - 1) as nat },
    {
        match self {
            Profil::Dynamique => Profil::Equilibre,
            _ => Profil::Prudent,
        }
    }

    pub open spec fn texte(self) -> Seq<char> {
        match self {
            Profil::Prudent => "Prudent"@,
            Profil::Equilibre => "Équilibré"@,
            Profil::Dynamique => "Dynamique"@,
        }
    }

    pub fn libelle(self) -> (r: &'static str)
        ensures
            r@ == self.texte(),
    {
        match self {
            Profil::Prudent => "Prudent",
            Profil::Equilibre => "Équilibré",
            Profil::Dynamique => "Dynamique",
        }
    }
}

/// `k` désigne le palier du glide path qui s'applique à `horizon` (en années
/// entières) : parmi les paliers dont le seuil est atteint, celui dont le seuil est
/// le plus élevé ; à seuil égal, le premier de la liste.
pub open spec fn palier_applicable(seuils: Seq<u32>, horizon: u32, k: int) -> bool {
    &&& 0 <= k < seuils.len()
    &&& seuils[k] <= horizon
    &&& forall|i: int| 0 <= i < seuils.len() && #[trigger] seuils[i] <= horizon ==> seuils[i] <= seuils[k]
    &&& forall|i: int| 0 <= i < k && #[trigger] seuils[i] <= horizon ==> seuils[i] < seuils[k]
}

/// Indice du palier du glide path (donné par les seuils `horizon_min_ans`, dans
/// l'ordre de la liste) qui s'applique à `horizon` ; `None` si aucun seuil n'est atteint.
pub fn palier_glide(seuils: &Vec<u32>, horizon: u32) -> (r: Option<usize>)
    ensures
        r is None <==> (forall|i: int| 0 <= i < seuils@.len() ==> #[trigger] seuils@[i] > horizon),
        r matches Some(k) ==> palier_applicable(seuils@, horizon, k as int),
{
    let mut meilleur: Option<usize> = None;
    let mut i: usize = 0;
    while i < seuils.len()
        invariant
            i <= seuils.len(),
            meilleur is None <==> (forall|j: int| 0 <= j < i ==> #[trigger] seuils@[j] > horizon),
            meilleur matches Some(k) ==> {
                &&& 0 <= k < i
                &&& seuils@[k as int] <= horizon
                &&& forall|j: int| 0 <= j < i && #[trigger] seuils@[j] <= horizon ==> seuils@[j] <= seuils@[k as int]
                &&& forall|j: int| 0 <= j < k && #[trigger] seuils@[j] <= horizon ==> seuils@[j] < seuils@[k as int]
            },
        decreases seuils.len() - i,
    {
        let s = seuils[i];
        if s <= horizon {
            match meilleur {
                None => {
                    meilleur = Some(i);
                },
                Some(k) => {
                    if s > seuils[k] {
                        meilleur = Some(i);
                    }
                },
            }
        }
        i = i + 1;
    }
    meilleur
}

/// Plus l'horizon est lointain, plus le seuil du palier retenu est élevé (ou égal) :
/// le glide path ne fait que descendre quand l'échéance approche.
pub proof fn palier_croissant(seuils: Seq<u32>, h1: u32, k1: int, h2: u32, k2: int)
    requires
        h1 <= h2,
        palier_applicable(seuils, h1, k1),
        palier_applicable(seuils, h2, k2),
    ensures
        seuils[k1] <= seuils[k2],
{
    assert(seuils[k1] <= h2);
}

/// Passage au palier suivant : dans combien d'années l'horizon passe sous le seuil
/// `seuil` du palier courant, et l'horizon atteint alors.
pub fn passage_palier(horizon: u32, seuil: u32) -> (r: (u32, u32))
    requires
        seuil <= horizon,
        horizon - seuil + 1 <= u32::MAX,
    ensures
        r.0 == horizon - seuil + 1,
        r.1 == if seuil == 0 { 0 } else { seuil - 1 },
{
    let dans = horizon - seuil + 1;
    (dans, horizon.saturating_sub(dans))
}

} // verus!
