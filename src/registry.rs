use crate::keyed::{find_key, first_at, lemma_absent, lemma_first_at_unique, unique};
use crate::providers::Provider;
use vstd::prelude::*;

verus! {

/// The names of `providers`, in order.
pub open spec fn names_of<P: Provider>(providers: Seq<P>) -> Seq<Seq<char>> {
    providers.map_values(|p: P| p.spec_name())
}

/// Providers in priority order: the earlier of two that claim a project wins.
/// No two share a name.
pub struct Registry<P: Provider> {
    providers: Vec<P>,
}

impl<P: Provider> View for Registry<P> {
    type V = Seq<P>;

    closed spec fn view(&self) -> Seq<P> {
        self.providers@
    }
}

impl<P: Provider> Registry<P> {
    pub open spec fn wf(&self) -> bool {
        unique(names_of(self@))
    }

    pub fn new() -> (r: Registry<P>)
        ensures
            r@ == Seq::<P>::empty(),
            r.wf(),
    {
        Registry { providers: Vec::new() }
    }

    pub fn len(&self) -> (r: usize)
        ensures
            r == self@.len(),
    {
        self.providers.len()
    }

    /// The providers in priority order.
    pub fn all(&self) -> (r: &Vec<P>)
        ensures
            r@ == self@,
    {
        &self.providers
    }

    /// Where the provider named `name` stands.
    pub fn position(&self, name: &str) -> (r: Option<usize>)
        ensures
            match r {
                Some(i) => find_key(names_of(self@), name@) == Some(i as int),
                None => find_key(names_of(self@), name@) is None,
            },
    {
        let ghost names = names_of(self@);
        let key = name.to_owned();
        let mut i: usize = 0;
        while i < self.providers.len()
            invariant
                i <= self.providers.len(),
                names == names_of(self@),
                self@ == self.providers@,
                key@ == name@,
                forall|j: int| 0 <= j < i ==> names[j] != name@,
            decreases self.providers.len() - i,
        {
            assert(names[i as int] == self@[i as int].spec_name());
            let candidate = self.providers[i].name().to_owned();
            if candidate == key {
                assert(first_at(names, name@, i as int));
                proof {
                    lemma_first_at_unique(names, name@, i as int);
                }
                return Some(i);
            }
            i = i + 1;
        }
        proof {
            lemma_absent(names, name@);
        }
        None
    }

    /// The provider named `name`, if one is registered.
    pub fn find_by_name(&self, name: &str) -> (r: Option<&P>)
        ensures
            match find_key(names_of(self@), name@) {
                Some(i) => r == Some(&self@[i]),
                None => r is None,
            },
    {
        match self.position(name) {
            Some(i) => Some(&self.providers[i]),
            None => None,
        }
    }

    /// Appends `provider` at the lowest priority, unless its name is taken:
    /// then the registry stays as it was.
    pub fn push(&mut self, provider: P) -> (added: bool)
        requires
            old(self).wf(),
        ensures
            added == (find_key(names_of(old(self)@), provider.spec_name()) is None),
            added ==> final(self)@ == old(self)@.push(provider),
            !added ==> final(self)@ == old(self)@,
            final(self).wf(),
    {
        if self.position(provider.name()).is_some() {
            return false;
        }
        let ghost before = self@;
        proof {
            assert forall|j: int| 0 <= j < before.len() implies names_of(before)[j]
                != provider.spec_name() by {
                if names_of(before)[j] == provider.spec_name() {
                    crate::keyed::lemma_least_index(names_of(before), provider.spec_name(), j);
                }
            }
        }
        self.providers.push(provider);
        assert(names_of(self@) =~= names_of(before).push(provider.spec_name()));
        true
    }

    /// The names of the providers, in priority order.
    pub fn names(&self) -> (r: Vec<String>)
        ensures
            r.deep_view() == names_of(self@),
    {
        let mut r: Vec<String> = Vec::new();
        let mut i: usize = 0;
        while i < self.providers.len()
            invariant
                i <= self.providers.len(),
                self@ == self.providers@,
                r.deep_view() =~= names_of(self@).subrange(0, i as int),
            decreases self.providers.len() - i,
        {
            let ghost prev = r.deep_view();
            r.push(self.providers[i].name().to_owned());
            assert(r.deep_view() =~= prev.push(names_of(self@)[i as int]));
            i = i + 1;
        }
        assert(names_of(self@).subrange(0, i as int) =~= names_of(self@));
        r
    }
}

} // verus!
