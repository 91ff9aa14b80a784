//! The cache of the values that are kept for each execution context.
//!
//! For each context two values are kept beyond the call into native code that
//! made them: the host's `require` function for the module of that context,
//! and the object that the helper script exports. Deriving either takes calls
//! into the host, and the second a loaded script, so each is derived once for
//! a context and found in the cache from then on.
//!
//! The cache does not call the host. `require_for` and `esm_helpers_for` find
//! what is kept; where nothing is, `require_derivation` and
//! `esm_helpers_derivation` say what to ask of the host, and
//! `record_require_for` and `record_esm_helpers_for` take what came of it.

use crate::host::{steps, HostOp, HostOpView};
use crate::identity::EnvEqHash;
use crate::memo::MemoTable;
use vstd::prelude::*;

verus! {

/// What a table holds after `outcome` was recorded for the context `env`: a
/// handle enters the table where the context has none yet, and nothing else
/// changes it.
pub open spec fn recorded<H>(
    table: Map<Seq<char>, H>,
    env: Seq<char>,
    outcome: Result<H, String>,
) -> Map<Seq<char>, H> {
    match outcome {
        Ok(handle) => if table.contains_key(env) {
            table
        } else {
            table.insert(env, handle)
        },
        Err(_) => table,
    }
}

/// The kept values of every execution context seen so far. `R` is the kept
/// `require` function, `E` the kept helper object.
pub struct ResolverCache<R, E> {
    require: MemoTable<R>,
    esm_helpers: MemoTable<E>,
}

/// The two tables of a `ResolverCache`, each a map from the file location
/// that a context reports to the value kept for it.
pub ghost struct ResolverCacheView<R, E> {
    pub require: Map<Seq<char>, R>,
    pub esm_helpers: Map<Seq<char>, E>,
}

impl<R, E> View for ResolverCache<R, E> {
    type V = ResolverCacheView<R, E>;

    closed spec fn view(&self) -> ResolverCacheView<R, E> {
        ResolverCacheView { require: self.require@, esm_helpers: self.esm_helpers@ }
    }
}

impl<R, E> ResolverCache<R, E> {
    /// A cache that has seen no context.
    pub fn new() -> (cache: ResolverCache<R, E>)
        ensures
            cache@.require == Map::<Seq<char>, R>::empty(),
            cache@.esm_helpers == Map::<Seq<char>, E>::empty(),
    {
        ResolverCache { require: MemoTable::new(), esm_helpers: MemoTable::new() }
    }

    /// The `require` function kept for `env`, if one is.
    pub fn require_for(&self, env: &EnvEqHash) -> (kept: Option<&R>)
        ensures
            kept == if self@.require.contains_key(env@) {
                Some(&self@.require[env@])
            } else {
                None
            },
    {
        self.require.get(env.file_url_string())
    }

    /// Takes the outcome of deriving the `require` function of `env`. A
    /// function enters the cache, unless one is kept for `env` already, and
    /// the kept one is returned. A failure is handed back and not remembered.
    pub fn record_require_for(&mut self, env: EnvEqHash, outcome: Result<R, String>) -> (result:
        Result<&R, String>)
        ensures
            final(self)@.require == recorded(old(self)@.require, env@, outcome),
            final(self)@.esm_helpers == old(self)@.esm_helpers,
            match outcome {
                Ok(_) => result == Ok::<&R, String>(&final(self)@.require[env@]),
                Err(description) => result == Err::<&R, String>(description),
            },
    {
        match outcome {
            Err(description) => Err(description),
            Ok(handle) => Ok(self.require.remember(env.into_file_url_string(), handle)),
        }
    }

    /// The helper object kept for `env`, if one is.
    pub fn esm_helpers_for(&self, env: &EnvEqHash) -> (kept: Option<&E>)
        ensures
            kept == if self@.esm_helpers.contains_key(env@) {
                Some(&self@.esm_helpers[env@])
            } else {
                None
            },
    {
        self.esm_helpers.get(env.file_url_string())
    }

    /// Takes the outcome of deriving the helper object of `env`. An object
    /// enters the cache, unless one is kept for `env` already, and the kept
    /// one is returned. A failure is handed back and not remembered.
    pub fn record_esm_helpers_for(&mut self, env: EnvEqHash, outcome: Result<E, String>) -> (result:
        Result<&E, String>)
        ensures
            final(self)@.esm_helpers == recorded(old(self)@.esm_helpers, env@, outcome),
            final(self)@.require == old(self)@.require,
            match outcome {
                Ok(_) => result == Ok::<&E, String>(&final(self)@.esm_helpers[env@]),
                Err(description) => result == Err::<&E, String>(description),
            },
    {
        match outcome {
            Err(description) => Err(description),
            Ok(handle) => Ok(self.esm_helpers.remember(env.into_file_url_string(), handle)),
        }
    }
}

/// What to ask of the host for the `require` function of the module at
/// `addon_path`: the global object's `process`, its `getBuiltinModule`,
/// through that the module `node:module`, its `createRequire`, and through
/// that the function for the module's path, which is then kept.
pub fn require_derivation(addon_path: &str) -> (plan: Vec<HostOp>)
    ensures
        steps(plan@) == seq![
            HostOpView::Global,
            HostOpView::NamedProperty("process"@),
            HostOpView::NamedProperty("getBuiltinModule"@),
            HostOpView::Call("node:module"@),
            HostOpView::NamedProperty("createRequire"@),
            HostOpView::Call(addon_path@),
            HostOpView::CreateFunctionRef,
        ],
{
    let plan = vec![
        HostOp::Global,
        HostOp::NamedProperty("process".to_owned()),
        HostOp::NamedProperty("getBuiltinModule".to_owned()),
        HostOp::Call("node:module".to_owned()),
        HostOp::NamedProperty("createRequire".to_owned()),
        HostOp::Call(addon_path.to_owned()),
        HostOp::CreateFunctionRef,
    ];
    assert(steps(plan@) =~= seq![
        HostOpView::Global,
        HostOpView::NamedProperty("process"@),
        HostOpView::NamedProperty("getBuiltinModule"@),
        HostOpView::Call("node:module"@),
        HostOpView::NamedProperty("createRequire"@),
        HostOpView::Call(addon_path@),
        HostOpView::CreateFunctionRef,
    ]);
    plan
}

/// What to ask of the host for the helper object, once the helper script
/// stands at `esm_helpers_path`: the context's `require` function, called
/// with the script's path; what it returns is then kept.
pub fn esm_helpers_derivation(esm_helpers_path: &str) -> (plan: Vec<HostOp>)
    ensures
        steps(plan@) == seq![
            HostOpView::RequireHandle,
            HostOpView::Rebind,
            HostOpView::Call(esm_helpers_path@),
            HostOpView::CreateObjectRef,
        ],
{
    let plan = vec![
        HostOp::RequireHandle,
        HostOp::Rebind,
        HostOp::Call(esm_helpers_path.to_owned()),
        HostOp::CreateObjectRef,
    ];
    assert(steps(plan@) =~= seq![
        HostOpView::RequireHandle,
        HostOpView::Rebind,
        HostOpView::Call(esm_helpers_path@),
        HostOpView::CreateObjectRef,
    ]);
    plan
}

/// A value is derived at most once for a context. Once a derivation for `env`
/// has succeeded, `env` is served from the table. What a table holds for a
/// context stays as it is, whatever is recorded later, for this context or
/// another. Recording for one context serves no other context, and a failure
/// serves none.
pub proof fn lemma_derived_once_for_each_context<H>(
    table: Map<Seq<char>, H>,
    env: Seq<char>,
    other: Seq<char>,
    handle: H,
    outcome: Result<H, String>,
    description: String,
)
    ensures
        recorded(table, env, Ok(handle)).contains_key(env),
        !table.contains_key(env) ==> recorded(table, env, Ok(handle))[env] == handle,
        table.contains_key(other) ==> recorded(table, env, outcome).contains_key(other)
            && recorded(table, env, outcome)[other] == table[other],
        other != env ==> (recorded(table, env, outcome).contains_key(other) <==> table.contains_key(
            other,
        )),
        recorded(table, env, Err(description)) == table,
{
}

} // verus!
