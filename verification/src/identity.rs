//! The identity under which an execution context is cached.

use vstd::prelude::*;
use vstd::std_specs::cmp::PartialEqSpecImpl;

verus! {

/// An execution context, known by the file location that it reports for its
/// module. Two contexts are the same exactly when they report the same text;
/// nothing else of a context takes part in `==` or in its hash.
#[derive(Debug, Clone, Hash)]
pub struct EnvEqHash {
    file_url_string: String,
}

impl View for EnvEqHash {
    type V = Seq<char>;

    /// The reported file location, as it was reported.
    closed spec fn view(&self) -> Seq<char> {
        self.file_url_string@
    }
}

impl EnvEqHash {
    /// The identity of the context that reports `file_url_string`.
    pub fn new(file_url_string: String) -> (env: EnvEqHash)
        ensures
            env@ == file_url_string@,
    {
        EnvEqHash { file_url_string }
    }

    /// The file location that the context reported.
    pub fn file_url_string(&self) -> (text: &str)
        ensures
            text@ == self@,
    {
        self.file_url_string.as_str()
    }

    /// Gives the reported file location back.
    pub fn into_file_url_string(self) -> (text: String)
        ensures
            text@ == self@,
    {
        self.file_url_string
    }
}

impl PartialEq for EnvEqHash {
    fn eq(&self, other: &EnvEqHash) -> (equal: bool) {
        self.file_url_string == other.file_url_string
    }
}

impl Eq for EnvEqHash {

}

impl PartialEqSpecImpl for EnvEqHash {
    open spec fn obeys_eq_spec() -> bool {
        true
    }

    open spec fn eq_spec(&self, other: &EnvEqHash) -> bool {
        self@ == other@
    }
}

} // verus!
