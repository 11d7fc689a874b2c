use crate::keyed::{insert, insert_entry, keys_of, lemma_insert, lookup, overlay, position_of, unique};
use vstd::prelude::*;

verus! {

/// Variables as name and value, in the order of first insertion.
pub type VarsModel = Seq<(Seq<char>, Seq<char>)>;

/// An ordered set of environment variables: each name stands once, and writing
/// a name that stands already replaces its value in place.
pub struct EnvironmentVariables {
    entries: Vec<(String, String)>,
}

impl View for EnvironmentVariables {
    type V = VarsModel;

    closed spec fn view(&self) -> VarsModel {
        self.entries.deep_view()
    }
}

impl EnvironmentVariables {
    /// No name stands twice.
    pub open spec fn wf(&self) -> bool {
        unique(keys_of(self@))
    }

    pub fn new() -> (r: EnvironmentVariables)
        ensures
            r@ == VarsModel::empty(),
            r.wf(),
    {
        let r = EnvironmentVariables { entries: Vec::new() };
        assert(r@ =~= VarsModel::empty());
        r
    }

    pub fn len(&self) -> (r: usize)
        ensures
            r == self@.len(),
    {
        self.entries.len()
    }

    /// The value under `name`, if any.
    pub fn get(&self, name: &str) -> (r: Option<String>)
        ensures
            r.deep_view() == lookup(self@, name@),
    {
        let key = name.to_owned();
        match position_of(&self.entries, &key) {
            Some(i) => Some(self.entries[i].1.clone()),
            None => None,
        }
    }

    /// Writes `value` under `name`, replacing an earlier value in place.
    pub fn insert(&mut self, name: String, value: String)
        requires
            old(self).wf(),
        ensures
            final(self)@ == insert(old(self)@, name@, value@),
            final(self).wf(),
    {
        proof {
            lemma_insert(self@, name@, value@);
        }
        insert_entry(&mut self.entries, name, value);
    }

    /// Writes each variable of `other`, in its order, over these.
    pub fn overlay(&mut self, other: &EnvironmentVariables)
        requires
            old(self).wf(),
        ensures
            final(self)@ == overlay(old(self)@, other@),
            final(self).wf(),
    {
        let ghost base = self@;
        let mut i: usize = 0;
        while i < other.entries.len()
            invariant
                i <= other@.len(),
                other@.len() == other.entries.len(),
                self.wf(),
                self@ == overlay(base, other@.subrange(0, i as int)),
            decreases other.entries.len() - i,
        {
            assert(other@.subrange(0, i + 1).drop_last() =~= other@.subrange(0, i as int));
            let name = other.entries[i].0.clone();
            let value = other.entries[i].1.clone();
            self.insert(name, value);
            i = i + 1;
        }
        assert(other@.subrange(0, i as int) =~= other@);
    }

    /// A copy of these variables.
    pub fn duplicate(&self) -> (r: EnvironmentVariables)
        ensures
            r@ == self@,
    {
        let mut entries: Vec<(String, String)> = Vec::new();
        let mut i: usize = 0;
        while i < self.entries.len()
            invariant
                i <= self.entries.len(),
                self@.len() == self.entries.len(),
                entries.deep_view() =~= self@.subrange(0, i as int),
            decreases self.entries.len() - i,
        {
            let ghost prev = entries.deep_view();
            entries.push((self.entries[i].0.clone(), self.entries[i].1.clone()));
            assert(entries.deep_view() =~= prev.push(self@[i as int]));
            i = i + 1;
        }
        assert(self@.subrange(0, i as int) =~= self@);
        EnvironmentVariables { entries }
    }

    /// The variables as name and value, in order.
    pub fn pairs(&self) -> (r: &Vec<(String, String)>)
        ensures
            r.deep_view() == self@,
    {
        &self.entries
    }
}

/// What the caller hands in: an explicit choice of provider, if any, and
/// variables that take precedence over what a provider sets.
pub struct Environment {
    provider: Option<String>,
    variables: EnvironmentVariables,
}

/// The view of an `Environment`.
pub struct EnvironmentModel {
    pub provider: Option<Seq<char>>,
    pub variables: VarsModel,
}

impl View for Environment {
    type V = EnvironmentModel;

    closed spec fn view(&self) -> EnvironmentModel {
        EnvironmentModel { provider: self.provider.deep_view(), variables: self.variables@ }
    }
}

impl Environment {
    pub open spec fn wf(&self) -> bool {
        unique(keys_of(self@.variables))
    }

    pub fn new() -> (r: Environment)
        ensures
            r@.provider is None,
            r@.variables == VarsModel::empty(),
            r.wf(),
    {
        Environment { provider: None, variables: EnvironmentVariables::new() }
    }

    /// Names the provider to use, so that detection is skipped.
    pub fn set_provider(&mut self, name: String)
        ensures
            final(self)@.provider == Some(name@),
            final(self)@.variables == old(self)@.variables,
            final(self).wf() == old(self).wf(),
    {
        self.provider = Some(name);
    }

    /// Sets a variable that overrides what a provider sets under that name.
    pub fn set_variable(&mut self, name: String, value: String)
        requires
            old(self).wf(),
        ensures
            final(self)@.provider == old(self)@.provider,
            final(self)@.variables == insert(old(self)@.variables, name@, value@),
            final(self).wf(),
    {
        self.variables.insert(name, value);
    }

    /// The provider the caller chose, if any.
    pub fn provider(&self) -> (r: Option<&String>)
        ensures
            r.deep_view() == self@.provider,
    {
        self.provider.as_ref()
    }

    /// The caller's variable under `name`, if any.
    pub fn get_variable(&self, name: &str) -> (r: Option<String>)
        ensures
            r.deep_view() == lookup(self@.variables, name@),
    {
        self.variables.get(name)
    }

    pub fn variables(&self) -> (r: &EnvironmentVariables)
        ensures
            r@ == self@.variables,
            self.wf() ==> r.wf(),
    {
        &self.variables
    }
}

} // verus!
