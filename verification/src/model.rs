//! Variables d'entrée du questionnaire : énumérations du foyer et profil
//! de chaque adulte, tel que le lisent les règles de la saisie en famille.

use vstd::prelude::*;

verus! {

#[derive(Debug, Clone, Copy, PartialEq, Eq, Structural)]
pub enum TypeEcole {
    Public,
    Prive,
    Mixte,
}

/// Tranche marginale d'imposition du foyer.
#[derive(Debug, Clone, Copy, PartialEq, Eq, PartialOrd, Ord, Hash, Structural)]
pub enum Tmi {
    T0,
    T11,
    T30,
    T41,
    T45,
}

impl Tmi {
    /// Taux de la tranche, en pourcentage.
    pub open spec fn taux(self) -> u8 {
        match self {
            Tmi::T0 => 0,
            Tmi::T11 => 11,
            Tmi::T30 => 30,
            Tmi::T41 => 41,
            Tmi::T45 => 45,
        }
    }

    pub fn pct(self) -> (r: u8)
        ensures
            r == self.taux(),
    {
        match self {
            Tmi::T0 => 0,
            Tmi::T11 => 11,
            Tmi::T30 => 30,
            Tmi::T41 => 41,
            Tmi::T45 => 45,
        }
    }

    /// TMI de 30 % ou plus.
    pub fn haute(self) -> (r: bool)
        ensures
            r == (self.taux() >= 30),
    {
        self.pct() >= 30
    }

    /// TMI de 11 % ou moins.
    pub fn basse(self) -> (r: bool)
        ensures
            r == (self.taux() <= 11),
    {
        self.pct() <= 11
    }
}

#[derive(Debug, Clone, Copy, PartialEq, Eq, PartialOrd, Ord, Hash, Structural)]
pub enum TempsGestion {
    Faible,
    Moyen,
    Eleve,
}

impl TempsGestion {
    /// Rang dans l'ordre Faible < Moyen < Élevé.
    pub open spec fn rang(self) -> nat {
        match self {
            TempsGestion::Faible => 0,
            TempsGestion::Moyen => 1,
            TempsGestion::Eleve => 2,
        }
    }

    /// Le plus faible de deux temps de gestion.
    pub fn plus_faible(self, autre: TempsGestion) -> (r: TempsGestion)
        ensures
            r == self || r == autre,
            r.rang() <= self.rang(),
            r.rang() <= autre.rang(),
    {
        match (self, autre) {
            (TempsGestion::Faible, _) => TempsGestion::Faible,
            (_, TempsGestion::Faible) => TempsGestion::Faible,
            (TempsGestion::Moyen, _) => TempsGestion::Moyen,
            (_, TempsGestion::Moyen) => TempsGestion::Moyen,
            _ => TempsGestion::Eleve,
        }
    }
}

#[derive(Debug, Clone, Copy, PartialEq, Eq, Structural)]
pub enum StatutRp {
    Locataire,
    ProprietaireAvecCredit,
    /// Propriétaire, crédit remboursé ou quasi.
    ProprietairePayee,
}

#[derive(Debug, Clone, Copy, PartialEq, Eq, Hash, Structural)]
pub enum PosteDepense {
    Logement,
    Alimentation,
    Transport,
    Enfants,
    SanteAssurances,
    Abonnements,
    Loisirs,
    Impots,
    Autre,
}

impl PosteDepense {
    pub const TOUS: [PosteDepense; 9] = [
        PosteDepense::Logement,
        PosteDepense::Alimentation,
        PosteDepense::Transport,
        PosteDepense::Enfants,
        PosteDepense::SanteAssurances,
        PosteDepense::Abonnements,
        PosteDepense::Loisirs,
        PosteDepense::Impots,
        PosteDepense::Autre,
    ];

    pub open spec fn texte(self) -> Seq<char> {
        match self {
            PosteDepense::Logement => "Logement (loyer, charges, énergie)"@,
            PosteDepense::Alimentation => "Alimentation"@,
            PosteDepense::Transport => "Transport"@,
            PosteDepense::Enfants => "Enfants (garde, cantine, activités)"@,
            PosteDepense::SanteAssurances => "Santé et assurances"@,
            PosteDepense::Abonnements => "Abonnements et télécoms"@,
            PosteDepense::Loisirs => "Loisirs et vacances"@,
            PosteDepense::Impots => "Impôts (IR, taxe foncière)"@,
            PosteDepense::Autre => "Autres dépenses"@,
        }
    }

    pub fn libelle(self) -> (r: &'static str)
        ensures
            r@ == self.texte(),
    {
        match self {
            PosteDepense::Logement => "Logement (loyer, charges, énergie)",
            PosteDepense::Alimentation => "Alimentation",
            PosteDepense::Transport => "Transport",
            PosteDepense::Enfants => "Enfants (garde, cantine, activités)",
            PosteDepense::SanteAssurances => "Santé et assurances",
            PosteDepense::Abonnements => "Abonnements et télécoms",
            PosteDepense::Loisirs => "Loisirs et vacances",
            PosteDepense::Impots => "Impôts (IR, taxe foncière)",
            PosteDepense::Autre => "Autres dépenses",
        }
    }
}

#[derive(Debug, Clone, Copy, PartialEq, Eq, PartialOrd, Ord, Hash, Structural)]
pub enum Priorite {
    Essentiel,
    Important,
    Souhaitable,
}

impl Priorite {
    /// Rang de service : les projets essentiels d'abord.
    pub open spec fn rang(self) -> nat {
        match self {
            Priorite::Essentiel => 0,
            Priorite::Important => 1,
            Priorite::Souhaitable => 2,
        }
    }

    pub fn rang_service(self) -> (r: u8)
        ensures
            r == self.rang(),
    {
        match self {
            Priorite::Essentiel => 0,
            Priorite::Important => 1,
            Priorite::Souhaitable => 2,
        }
    }

    pub open spec fn texte(self) -> Seq<char> {
        match self {
            Priorite::Essentiel => "Essentiel"@,
            Priorite::Important => "Important"@,
            Priorite::Souhaitable => "Souhaitable"@,
        }
    }

    pub fn libelle(self) -> (r: &'static str)
        ensures
            r@ == self.texte(),
    {
        match self {
            Priorite::Essentiel => "Essentiel",
            Priorite::Important => "Important",
            Priorite::Souhaitable => "Souhaitable",
        }
    }
}

/// Ce que les règles du foyer lisent d'un adulte : âge, rapport au risque,
/// stabilité des revenus, temps disponible et abondement employeur.
#[derive(Debug, Clone, Copy, PartialEq, Eq)]
pub struct ProfilAdulte {
    pub age: u32,
    /// 1 = « je vends à -20 % » … 5 = « je renforce ».
    pub tol_risque: u8,
    /// 1 = indépendant / variable … 3 = CDI / fonctionnaire.
    pub stab_revenus: u8,
    pub temps_gestion: TempsGestion,
    pub abondement_employeur: bool,
}

/// Agrégats du foyer qui ne dépendent pas des montants.
#[derive(Debug, Clone, Copy, PartialEq, Eq)]
pub struct ProfilFoyer {
    /// Âge de référence : l'adulte le plus âgé (règle actions la plus prudente).
    pub age: u32,
    pub en_couple: bool,
    /// Tolérance retenue : la plus faible des adultes.
    pub tol_risque: u8,
    pub tol_max: u8,
    /// Temps de gestion retenu : le plus faible des adultes.
    pub temps_gestion: TempsGestion,
    pub abondement_employeur: bool,
}

/// Ce que le foyer retient de ses adultes : l'âge du plus âgé, la tolérance la plus
/// faible (et la plus forte), le temps de gestion le plus faible, l'abondement dès
/// qu'un adulte y a droit ; sans adulte, les valeurs neutres 0 an, 3/5 et temps faible.
pub open spec fn foyer_retenu(s: Seq<ProfilAdulte>, f: ProfilFoyer) -> bool {
    &&& f.en_couple == (s.len() >= 2)
    &&& f.abondement_employeur == (exists|i: int| 0 <= i < s.len() && #[trigger] s[i].abondement_employeur)
    &&& s.len() == 0 ==> {
        &&& f.age == 0
        &&& f.tol_risque == 3
        &&& f.tol_max == 3
        &&& f.temps_gestion == TempsGestion::Faible
    }
    &&& s.len() > 0 ==> {
        &&& (exists|i: int| 0 <= i < s.len() && #[trigger] s[i].age == f.age)
        &&& (forall|i: int| 0 <= i < s.len() ==> #[trigger] s[i].age <= f.age)
        &&& (exists|i: int| 0 <= i < s.len() && #[trigger] s[i].tol_risque == f.tol_risque)
        &&& (forall|i: int| 0 <= i < s.len() ==> f.tol_risque <= #[trigger] s[i].tol_risque)
        &&& (exists|i: int| 0 <= i < s.len() && #[trigger] s[i].tol_risque == f.tol_max)
        &&& (forall|i: int| 0 <= i < s.len() ==> #[trigger] s[i].tol_risque <= f.tol_max)
        &&& (exists|i: int| 0 <= i < s.len() && #[trigger] s[i].temps_gestion == f.temps_gestion)
        &&& (forall|i: int| 0 <= i < s.len() ==> f.temps_gestion.rang() <= #[trigger] s[i].temps_gestion.rang())
    }
}

/// Agrège les adultes du foyer (règles de la saisie en famille).
pub fn profil_foyer(adultes: &Vec<ProfilAdulte>) -> (f: ProfilFoyer)
    ensures
        foyer_retenu(adultes@, f),
{
    let s = Ghost(adultes@);
    if adultes.len() == 0 {
        return ProfilFoyer {
            age: 0,
            en_couple: false,
            tol_risque: 3,
            tol_max: 3,
            temps_gestion: TempsGestion::Faible,
            abondement_employeur: false,
        };
    }
    let premier = adultes[0];
    let mut age = premier.age;
    let mut tol_min = premier.tol_risque;
    let mut tol_max = premier.tol_risque;
    let mut temps = premier.temps_gestion;
    let mut abondement = premier.abondement_employeur;
    let mut i: usize = 1;
    while i < adultes.len()
        invariant
            s@ == adultes@,
            1 <= i <= adultes.len(),
            exists|k: int| 0 <= k < i && #[trigger] s@[k].age == age,
            forall|k: int| 0 <= k < i ==> #[trigger] s@[k].age <= age,
            exists|k: int| 0 <= k < i && #[trigger] s@[k].tol_risque == tol_min,
            forall|k: int| 0 <= k < i ==> tol_min <= #[trigger] s@[k].tol_risque,
            exists|k: int| 0 <= k < i && #[trigger] s@[k].tol_risque == tol_max,
            forall|k: int| 0 <= k < i ==> #[trigger] s@[k].tol_risque <= tol_max,
            exists|k: int| 0 <= k < i && #[trigger] s@[k].temps_gestion == temps,
            forall|k: int| 0 <= k < i ==> temps.rang() <= #[trigger] s@[k].temps_gestion.rang(),
            abondement == (exists|k: int| 0 <= k < i && #[trigger] s@[k].abondement_employeur),
        decreases adultes.len() - i,
    {
        let a = adultes[i];
        if a.age > age {
            age = a.age;
        }
        if a.tol_risque < tol_min {
            tol_min = a.tol_risque;
        }
        if a.tol_risque > tol_max {
            tol_max = a.tol_risque;
        }
        temps = temps.plus_faible(a.temps_gestion);
        abondement = abondement || a.abondement_employeur;
        assert(s@[i as int] == a);
        i = i + 1;
    }
    ProfilFoyer {
        age,
        en_couple: adultes.len() >= 2,
        tol_risque: tol_min,
        tol_max,
        temps_gestion: temps,
        abondement_employeur: abondement,
    }
}

/// Pour un foyer agrégé par `profil_foyer`, l'écart signalé (tolérance la plus haute
/// d'au moins 2 points au-dessus de la tolérance retenue, en couple) existe si et
/// seulement si deux adultes ont des tolérances qui diffèrent de 2 points ou plus.
pub proof fn ecart_signale_ssi_deux_adultes(s: Seq<ProfilAdulte>, f: ProfilFoyer)
    requires
        foyer_retenu(s, f),
    ensures
        (f.en_couple && f.tol_max >= f.tol_risque + 2) <==> (exists|i: int, j: int|
            0 <= i < s.len() && 0 <= j < s.len() && #[trigger] s[i].tol_risque >= #[trigger] s[j].tol_risque
                + 2),
{
    if f.en_couple && f.tol_max >= f.tol_risque + 2 {
        let i = choose|i: int| 0 <= i < s.len() && #[trigger] s[i].tol_risque == f.tol_max;
        let j = choose|j: int| 0 <= j < s.len() && #[trigger] s[j].tol_risque == f.tol_risque;
        assert(s[i].tol_risque >= s[j].tol_risque + 2);
    }
    if exists|i: int, j: int|
        0 <= i < s.len() && 0 <= j < s.len() && #[trigger] s[i].tol_risque >= #[trigger] s[j].tol_risque
            + 2 {
        let (i, j) = choose|i: int, j: int|
            0 <= i < s.len() && 0 <= j < s.len() && #[trigger] s[i].tol_risque >= #[trigger] s[j].tol_risque
                + 2;
        assert(i != j);
        assert(s[i].tol_risque <= f.tol_max);
        assert(f.tol_risque <= s[j].tol_risque);
    }
}

/// Les rapports au risque des adultes diffèrent de 2 points ou plus.
pub fn tolerances_divergentes(f: &ProfilFoyer) -> (r: bool)
    ensures
        r == (f.en_couple && f.tol_max >= f.tol_risque + 2),
{
    f.en_couple && f.tol_max as u16 >= f.tol_risque as u16 + 2
}

} // verus!
