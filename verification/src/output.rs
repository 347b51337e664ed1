//! Alertes, leviers et erreurs de validation du résultat.

use vstd::prelude::*;

verus! {

#[derive(Debug, Clone, Copy, PartialEq, Eq, Structural)]
pub enum Gravite {
    Info,
    Attention,
    Critique,
}

impl Gravite {
    /// Rang d'affichage : critique, puis attention, puis info.
    pub open spec fn rang(self) -> nat {
        match self {
            Gravite::Critique => 0,
            Gravite::Attention => 1,
            Gravite::Info => 2,
        }
    }
}

#[derive(Debug, Clone, PartialEq)]
pub struct Alerte {
    pub gravite: Gravite,
    pub message: String,
}

impl Alerte {
    pub fn info<M: Into<String>>(m: M) -> (r: Self)
        ensures
            r.gravite == Gravite::Info,
            call_ensures(M::into, (m,), r.message),
    {
        Alerte { gravite: Gravite::Info, message: m.into() }
    }

    pub fn attention<M: Into<String>>(m: M) -> (r: Self)
        ensures
            r.gravite == Gravite::Attention,
            call_ensures(M::into, (m,), r.message),
    {
        Alerte { gravite: Gravite::Attention, message: m.into() }
    }

    pub fn critique<M: Into<String>>(m: M) -> (r: Self)
        ensures
            r.gravite == Gravite::Critique,
            call_ensures(M::into, (m,), r.message),
    {
        Alerte { gravite: Gravite::Critique, message: m.into() }
    }

    /// Copie de l'alerte.
    pub fn copie(&self) -> (r: Self)
        ensures
            r == *self,
    {
        Alerte { gravite: self.gravite, message: self.message.clone() }
    }
}

pub open spec fn de_gravite(g: Gravite) -> spec_fn(Alerte) -> bool {
    |a: Alerte| a.gravite == g
}

/// Les alertes classées par gravité (critique, attention, info), chaque groupe
/// gardant l'ordre d'émission.
pub open spec fn alertes_classees(s: Seq<Alerte>) -> Seq<Alerte> {
    s.filter(de_gravite(Gravite::Critique)) + s.filter(de_gravite(Gravite::Attention)) + s.filter(
        de_gravite(Gravite::Info),
    )
}

fn ajouter_de_gravite(alertes: &Vec<Alerte>, g: Gravite, r: &mut Vec<Alerte>)
    ensures
        final(r)@ == old(r)@ + alertes@.filter(de_gravite(g)),
{
    let ghost depart = r@;
    let ghost p = de_gravite(g);
    let mut i: usize = 0;
    assert(alertes@.take(0) =~= Seq::<Alerte>::empty());
    proof {
        reveal_with_fuel(Seq::filter, 1);
    }
    while i < alertes.len()
        invariant
            i <= alertes.len(),
            p == de_gravite(g),
            r@ == depart + alertes@.take(i as int).filter(p),
        decreases alertes.len() - i,
    {
        let a = alertes[i].copie();
        let ghost avant = alertes@.take(i as int);
        assert(alertes@.take(i + 1) =~= avant + seq![a]);
        proof {
            Seq::filter_distributes_over_add(avant, seq![a], p);
            reveal_with_fuel(Seq::filter, 2);
        }
        if a.gravite == g {
            assert(seq![a].filter(p) =~= seq![a]);
            r.push(a);
            assert(r@ =~= depart + alertes@.take(i + 1).filter(p));
        } else {
            assert(seq![a].filter(p) =~= Seq::<Alerte>::empty());
            assert(r@ =~= depart + alertes@.take(i + 1).filter(p));
        }
        i = i + 1;
    }
    assert(alertes@.take(alertes.len() as int) =~= alertes@);
}

/// Trie les alertes : critique > attention > info, sans changer l'ordre à
/// gravité égale.
pub fn trier_alertes(alertes: Vec<Alerte>) -> (r: Vec<Alerte>)
    ensures
        r@ == alertes_classees(alertes@),
{
    let mut r: Vec<Alerte> = Vec::new();
    ajouter_de_gravite(&alertes, Gravite::Critique, &mut r);
    ajouter_de_gravite(&alertes, Gravite::Attention, &mut r);
    ajouter_de_gravite(&alertes, Gravite::Info, &mut r);
    assert(r@ =~= alertes_classees(alertes@));
    r
}

/// Le classement des alertes n'en perd ni n'en ajoute aucune : il les permute.
pub proof fn classement_permute(s: Seq<Alerte>)
    ensures
        alertes_classees(s).to_multiset() =~= s.to_multiset(),
    decreases s.len(),
{
    broadcast use vstd::seq_lib::group_to_multiset_ensures;
    broadcast use vstd::seq_lib::lemma_multiset_commutative;

    let pc = de_gravite(Gravite::Critique);
    let pa = de_gravite(Gravite::Attention);
    let pi = de_gravite(Gravite::Info);
    if s.len() == 0 {
        reveal_with_fuel(Seq::filter, 1);
        assert(alertes_classees(s) =~= s);
    } else {
        let t = s.drop_last();
        let x = s.last();
        classement_permute(t);
        assert(s =~= t.push(x));
        t.lemma_filter_push(x, pc);
        t.lemma_filter_push(x, pa);
        t.lemma_filter_push(x, pi);
        let c = t.filter(pc);
        let a = t.filter(pa);
        let i = t.filter(pi);
        assert((c + a + i).to_multiset() =~= c.to_multiset().add(a.to_multiset()).add(i.to_multiset()));
        if x.gravite == Gravite::Critique {
            assert(alertes_classees(s) =~= c.push(x) + a + i);
            assert((c.push(x) + a + i).to_multiset() =~= c.push(x).to_multiset().add(
                a.to_multiset(),
            ).add(i.to_multiset()));
        } else if x.gravite == Gravite::Attention {
            assert(alertes_classees(s) =~= c + a.push(x) + i);
            assert((c + a.push(x) + i).to_multiset() =~= c.to_multiset().add(
                a.push(x).to_multiset(),
            ).add(i.to_multiset()));
        } else {
            assert(alertes_classees(s) =~= (c + a) + i.push(x));
            assert(((c + a) + i.push(x)).to_multiset() =~= (c + a).to_multiset().add(
                i.push(x).to_multiset(),
            ));
        }
        assert(t.push(x).to_multiset() =~= t.to_multiset().insert(x));
    }
}

/// Dans le classement, une alerte n'est jamais précédée d'une alerte moins grave.
pub proof fn classement_ordonne(s: Seq<Alerte>, i: int, j: int)
    requires
        0 <= i < j < alertes_classees(s).len(),
    ensures
        alertes_classees(s)[i].gravite.rang() <= alertes_classees(s)[j].gravite.rang(),
{
    broadcast use vstd::seq_lib::group_filter_ensures;

    let c = s.filter(de_gravite(Gravite::Critique));
    let a = s.filter(de_gravite(Gravite::Attention));
    let f = s.filter(de_gravite(Gravite::Info));
    let r = alertes_classees(s);
    assert(r =~= c + a + f);
    if i < c.len() {
        assert(r[i] == c[i]);
    } else if i < c.len() + a.len() {
        assert(r[i] == a[i - c.len()]);
        assert(j >= c.len());
        if j < c.len() + a.len() {
            assert(r[j] == a[j - c.len()]);
        } else {
            assert(r[j] == f[j - c.len() - a.len()]);
        }
    } else {
        assert(r[i] == f[i - c.len() - a.len()]);
        assert(r[j] == f[j - c.len() - a.len()]);
    }
}

#[derive(Debug, Clone, Copy, PartialEq, Eq, Structural)]
pub enum CategoriePoche {
    Etudes,
    Projet,
}

#[derive(Debug, Clone, PartialEq)]
pub struct Levier {
    pub titre: String,
    pub detail: String,
}

#[derive(Debug, Clone, PartialEq)]
pub struct ErreursValidation {
    pub erreurs: Vec<String>,
}

} // verus!
