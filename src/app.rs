use crate::keyed::{insert, insert_entry, keys_of, lemma_insert, lookup, position_of, unique};
use vstd::prelude::*;

verus! {

/// A project's files as path and contents, where `None` stands for a file
/// that is there but cannot be read.
pub type AppModel = Seq<(Seq<char>, Option<Seq<char>>)>;

/// A read-only view of a project's source tree: each path stands once.
pub struct App {
    files: Vec<(String, Option<String>)>,
}

/// Why a read of a project or a provider's own work failed.
pub struct ProviderError {
    pub message: String,
}

impl View for ProviderError {
    type V = Seq<char>;

    open spec fn view(&self) -> Seq<char> {
        self.message@
    }
}

impl View for App {
    type V = AppModel;

    closed spec fn view(&self) -> AppModel {
        self.files.deep_view()
    }
}

impl App {
    pub open spec fn wf(&self) -> bool {
        unique(keys_of(self@))
    }

    pub fn new() -> (r: App)
        ensures
            r@ == AppModel::empty(),
            r.wf(),
    {
        let r = App { files: Vec::new() };
        assert(r@ =~= AppModel::empty());
        r
    }

    /// Records a readable file, replacing an earlier record of that path.
    pub fn add_file(&mut self, path: String, contents: String)
        requires
            old(self).wf(),
        ensures
            final(self)@ == insert(old(self)@, path@, Some(contents@)),
            final(self).wf(),
    {
        proof {
            lemma_insert(self@, path@, Some(contents@));
        }
        insert_entry(&mut self.files, path, Some(contents));
    }

    /// Records a file that is there but cannot be read.
    pub fn add_unreadable(&mut self, path: String)
        requires
            old(self).wf(),
        ensures
            final(self)@ == insert(old(self)@, path@, None::<Seq<char>>),
            final(self).wf(),
    {
        proof {
            lemma_insert(self@, path@, None::<Seq<char>>);
        }
        insert_entry(&mut self.files, path, None);
    }

    /// Whether `path` is there, readable or not.
    pub fn includes_file(&self, path: &str) -> (r: bool)
        ensures
            r == lookup(self@, path@) is Some,
    {
        let key = path.to_owned();
        position_of(&self.files, &key).is_some()
    }

    /// The contents at `path`: `Ok(None)` where there is no such file, an error
    /// naming the path where it cannot be read.
    pub fn read_file(&self, path: &str) -> (r: Result<Option<String>, ProviderError>)
        ensures
            match lookup(self@, path@) {
                None => r matches Ok(None),
                Some(Some(c)) => r matches Ok(Some(s)) && s@ == c,
                Some(None) => r matches Err(e) && e@ == path@,
            },
    {
        let key = path.to_owned();
        match position_of(&self.files, &key) {
            None => Ok(None),
            Some(i) => match &self.files[i].1 {
                Some(c) => Ok(Some(c.clone())),
                None => Err(ProviderError { message: key }),
            },
        }
    }

    /// The paths of the project, in the order they were first recorded.
    pub fn paths(&self) -> (r: Vec<String>)
        ensures
            r.deep_view() == keys_of(self@),
    {
        let mut r: Vec<String> = Vec::new();
        let mut i: usize = 0;
        while i < self.files.len()
            invariant
                i <= self.files.len(),
                self@.len() == self.files.len(),
                r.deep_view() =~= keys_of(self@).subrange(0, i as int),
            decreases self.files.len() - i,
        {
            let ghost prev = r.deep_view();
            r.push(self.files[i].0.clone());
            assert(r.deep_view() =~= prev.push(self@[i as int].0));
            i = i + 1;
        }
        assert(keys_of(self@).subrange(0, i as int) =~= keys_of(self@));
        r
    }
}

} // verus!
