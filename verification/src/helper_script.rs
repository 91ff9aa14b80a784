//! The helper script that stands beside a native module.
//!
//! Dynamic import and import-relative resolution are syntax of the host, not
//! values that native code can call. A small script that wraps both in
//! ordinary functions is written next to the native module, once for each
//! module path in a process, and loaded from there.
//!
//! Writing the file is left to the caller: `esm_helpers_path_for` says whether
//! and where to write, `record` takes what came of it.

use crate::path::{paths_equal, utf8_path_with_added_extension, utf8_paths_equal, with_added_extension};
use vstd::prelude::*;

verus! {

/// The text of the helper script.
pub const ESM_HELPERS_JS: &'static str =
    r#"
        const _import = (specifier, options) => import(specifier, options);
        export { _import as "import" };
        export const importMetaResolve = (specifier) => import.meta.resolve(specifier);
    "#;

/// The extension that the helper script's name adds to the module's.
pub const ESM_HELPERS_EXTENSION: &'static str = "esm-helpers.js";

/// The path of the helper script of the module at `addon_path`.
pub open spec fn esm_helpers_path_of(addon_path: Seq<char>) -> Seq<char> {
    utf8_path_with_added_extension(addon_path, ESM_HELPERS_EXTENSION@)
}

/// Whether `addon_path` is, as a path, one of the module paths served.
pub open spec fn is_served(served: Seq<Seq<char>>, addon_path: Seq<char>) -> bool {
    exists|i: int| 0 <= i < served.len() && utf8_paths_equal(#[trigger] served[i], addon_path)
}

/// Whether `served[at]` is the first of the module paths served that is, as a
/// path, `addon_path`.
pub open spec fn is_first_served(served: Seq<Seq<char>>, addon_path: Seq<char>, at: int) -> bool {
    &&& 0 <= at < served.len()
    &&& utf8_paths_equal(served[at], addon_path)
    &&& forall|i: int| 0 <= i < at ==> !utf8_paths_equal(#[trigger] served[i], addon_path)
}

/// The module paths that count as served after the outcome of a write for
/// `addon_path` was recorded: a write that succeeded adds the path, unless it
/// is served already, and a write that failed adds nothing.
pub open spec fn served_after(
    served: Seq<Seq<char>>,
    addon_path: Seq<char>,
    outcome: Result<(), String>,
) -> Seq<Seq<char>> {
    match outcome {
        Ok(_) => if is_served(served, addon_path) {
            served
        } else {
            served.push(addon_path)
        },
        Err(_) => served,
    }
}

/// The path of the helper script of the module at `addon_path`: the module's
/// own path with one more extension.
pub fn esm_helpers_path(addon_path: &str) -> (path: String)
    ensures
        path@ == esm_helpers_path_of(addon_path@),
{
    proof {
        reveal_strlit("esm-helpers.js");
    }
    with_added_extension(addon_path, ESM_HELPERS_EXTENSION)
}

/// Why the helper script could not be put in place.
#[derive(Debug, Clone, PartialEq, Eq)]
#[non_exhaustive]
pub enum EsmHelpersPathForError {
    /// Writing the file failed; the text describes the failure.
    IoError(String),
}

impl EsmHelpersPathForError {
    /// The description of the error.
    pub open spec fn message(self) -> Seq<char> {
        match self {
            EsmHelpersPathForError::IoError(description) => "I/O error: "@ + description@,
        }
    }

    /// Describes the error in words.
    pub fn to_string(&self) -> (text: String)
        ensures
            text@ == self.message(),
    {
        match self {
            EsmHelpersPathForError::IoError(description) => "I/O error: ".to_owned().concat(
                description.as_str(),
            ),
        }
    }
}

/// What is to be done to have the helper script of a module in place.
#[derive(Debug, Clone, PartialEq, Eq)]
pub enum HelperScript {
    /// The script was written earlier in this process, to `path`.
    Written { path: String },
    /// The script is to be written: `contents` to `path`, replacing what is
    /// there. The outcome goes to `HelperScriptCache::record`.
    Write { path: String, contents: &'static str },
}

struct Script {
    addon_path: String,
    path: String,
}

/// The module paths whose helper script this process has written, each with
/// the path of its script.
pub struct HelperScriptCache {
    scripts: Vec<Script>,
}

impl HelperScriptCache {
    /// Each script stands where its module's path says.
    #[verifier::type_invariant]
    spec fn scripts_beside_modules(&self) -> bool {
        forall|i: int|
            0 <= i < self.scripts@.len() ==> (#[trigger] self.scripts@[i]).path@
                == esm_helpers_path_of(self.scripts@[i].addon_path@)
    }

    /// A cache for a process that has written no script yet.
    pub fn new() -> (cache: HelperScriptCache)
        ensures
            cache@ == Seq::<Seq<char>>::empty(),
    {
        let cache = HelperScriptCache { scripts: Vec::new() };
        assert(cache@ =~= Seq::<Seq<char>>::empty());
        cache
    }

    /// Where the first script stands whose module path is, as a path,
    /// `addon_path`.
    fn find(&self, addon_path: &str) -> (found: Option<usize>)
        ensures
            match found {
                Some(at) => is_first_served(self@, addon_path@, at as int),
                None => !is_served(self@, addon_path@) && forall|i: int|
                    0 <= i < self@.len() ==> #[trigger] self@[i] != addon_path@,
            },
    {
        let mut at: usize = 0;
        while at < self.scripts.len()
            invariant
                at <= self.scripts@.len(),
                self@.len() == self.scripts@.len(),
                forall|i: int| 0 <= i < at ==> !utf8_paths_equal(#[trigger] self@[i], addon_path@),
                forall|i: int| 0 <= i < at ==> #[trigger] self@[i] != addon_path@,
            decreases self.scripts@.len() - at,
        {
            assert(self@[at as int] == self.scripts@[at as int].addon_path@);
            if paths_equal(self.scripts[at].addon_path.as_str(), addon_path) {
                return Some(at);
            }
            at += 1;
        }
        None
    }

    /// Says what is to be done for the helper script of the module at
    /// `addon_path`: nothing where this process has written it, else one write
    /// of the fixed text to the script's path. A script that was written is
    /// found under every spelling of its module's path, and stands where the
    /// spelling that it was written for says.
    pub fn esm_helpers_path_for(&self, addon_path: &str) -> (step: HelperScript)
        ensures
            match step {
                HelperScript::Written { path } => exists|at: int|
                    is_first_served(self@, addon_path@, at) && path@ == esm_helpers_path_of(
                        self@[at],
                    ),
                HelperScript::Write { path, contents } => !is_served(self@, addon_path@) && path@
                    == esm_helpers_path_of(addon_path@) && contents@ == ESM_HELPERS_JS@,
            },
    {
        proof {
            use_type_invariant(self);
        }
        match self.find(addon_path) {
            Some(at) => {
                assert(self@[at as int] == self.scripts@[at as int].addon_path@);
                HelperScript::Written { path: self.scripts[at].path.clone() }
            },
            None => HelperScript::Write {
                path: esm_helpers_path(addon_path),
                contents: ESM_HELPERS_JS,
            },
        }
    }

    /// Takes the outcome of the write that `esm_helpers_path_for` asked for.
    /// After a write that succeeded the module path is served, so that the
    /// next call for it asks for no write, and the script's path is returned.
    /// A write that failed leaves the cache as it was, so that the next call
    /// asks for the write again, and is returned as an `IoError` with the
    /// description given.
    pub fn record(&mut self, addon_path: &str, outcome: Result<(), String>) -> (result: Result<
        String,
        EsmHelpersPathForError,
    >)
        ensures
            final(self)@ == served_after(old(self)@, addon_path@, outcome),
            match outcome {
                Ok(_) => is_served(final(self)@, addon_path@) && (result matches Ok(path)
                    && exists|at: int|
                    is_first_served(final(self)@, addon_path@, at) && path@ == esm_helpers_path_of(
                        final(self)@[at],
                    )),
                Err(description) => result == Err::<String, EsmHelpersPathForError>(
                    EsmHelpersPathForError::IoError(description),
                ),
            },
    {
        match outcome {
            Err(description) => Err(EsmHelpersPathForError::IoError(description)),
            Ok(_) => {
                let at = match self.find(addon_path) {
                    Some(at) => at,
                    None => {
                        proof {
                            use_type_invariant(&*self);
                        }
                        let ghost before = self@;
                        let script = Script {
                            addon_path: addon_path.to_owned(),
                            path: esm_helpers_path(addon_path),
                        };
                        let mut taken = HelperScriptCache { scripts: Vec::new() };
                        core::mem::swap(self, &mut taken);
                        let HelperScriptCache { scripts } = taken;
                        let mut scripts = scripts;
                        scripts.push(script);
                        *self = HelperScriptCache { scripts };
                        assert(self@ =~= before.push(addon_path@));
                        match self.find(addon_path) {
                            Some(at) => at,
                            None => {
                                assert(self@[self@.len() - 1] == addon_path@);
                                unreached()
                            },
                        }
                    },
                };
                proof {
                    use_type_invariant(&*self);
                }
                assert(self@[at as int] == self.scripts@[at as int].addon_path@);
                assert(utf8_paths_equal(self@[at as int], addon_path@));
                Ok(self.scripts[at].path.clone())
            },
        }
    }
}

impl View for HelperScriptCache {
    type V = Seq<Seq<char>>;

    /// The module paths whose script has been written, in the order in which
    /// they were written, each as it was spelled then.
    closed spec fn view(&self) -> Seq<Seq<char>> {
        self.scripts@.map_values(|script: Script| script.addon_path@)
    }
}

/// The script of a module path is written once in a process. A path that is
/// served stays served, and is found at the same place, whatever is recorded
/// later. Recording for one path serves no path that differs from it as a
/// path: such a path still gets a write of its own. A write that failed
/// serves none. (That a write which succeeded serves its own path is stated
/// by `HelperScriptCache::record`.)
pub proof fn lemma_written_once_for_each_module_path(
    served: Seq<Seq<char>>,
    addon_path: Seq<char>,
    other: Seq<char>,
    at: int,
    outcome: Result<(), String>,
    description: String,
)
    ensures
        is_served(served, other) ==> is_served(served_after(served, addon_path, outcome), other),
        is_first_served(served, other, at) ==> is_first_served(
            served_after(served, addon_path, outcome),
            other,
            at,
        ) && served_after(served, addon_path, outcome)[at] == served[at],
        !utf8_paths_equal(addon_path, other) ==> (is_served(
            served_after(served, addon_path, outcome),
            other,
        ) <==> is_served(served, other)),
        served_after(served, addon_path, Err(description)) == served,
{
    let after = served_after(served, addon_path, outcome);
    if is_served(served, other) {
        let i = choose|i: int| 0 <= i < served.len() && utf8_paths_equal(#[trigger] served[i], other);
        assert(after[i] == served[i]);
    }
    if is_first_served(served, other, at) {
        assert(after[at] == served[at]);
        assert forall|i: int| 0 <= i < at implies !utf8_paths_equal(#[trigger] after[i], other) by {
            assert(after[i] == served[i]);
        }
    }
    if !utf8_paths_equal(addon_path, other) && is_served(after, other) {
        let i = choose|i: int| 0 <= i < after.len() && utf8_paths_equal(#[trigger] after[i], other);
        assert(i < served.len());
        assert(served[i] == after[i]);
    }
}

} // verus!
