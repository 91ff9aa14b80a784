//! What a native module can ask of the host through this library: its own
//! file name, a module by `require`, the resolution of a module id, a module
//! by dynamic import, the resolution of an import specifier, and whether it
//! is the program's entry point.
//!
//! Each function here either computes from what the host reported, or says
//! what to ask of the host, as a list of operations.

use crate::host::{steps, HostOp, HostOpView};
use crate::location::{file_url_string_to_utf8_path_buf, normalized};
use crate::path::{paths_equal, utf8_paths_equal};
use vstd::prelude::*;

verus! {

/// The file name of the module whose file location is `file_url_string`, or
/// the description of the reason why the location stands for none.
pub fn filename(file_url_string: &str) -> (result: Result<String, String>)
    ensures
        match normalized(file_url_string@) {
            Ok(path) => result matches Ok(found) && found@ == path,
            Err(error) => result matches Err(description) && description@ == error.message(),
        },
{
    match file_url_string_to_utf8_path_buf(file_url_string) {
        Ok(path) => Ok(path),
        Err(error) => Err(error.to_string()),
    }
}

/// What to ask of the host to load the module `id`: the context's `require`
/// function, called with `id`.
pub fn require(id: &str) -> (plan: Vec<HostOp>)
    ensures
        steps(plan@) == seq![
            HostOpView::RequireHandle,
            HostOpView::Rebind,
            HostOpView::Call(id@),
        ],
{
    let plan = vec![HostOp::RequireHandle, HostOp::Rebind, HostOp::Call(id.to_owned())];
    assert(steps(plan@) =~= seq![
        HostOpView::RequireHandle,
        HostOpView::Rebind,
        HostOpView::Call(id@),
    ]);
    plan
}

/// What to ask of the host to resolve the module `id`: the `resolve` function
/// of the context's `require` function, called with `id`.
pub fn require_resolve(id: &str) -> (plan: Vec<HostOp>)
    ensures
        steps(plan@) == seq![
            HostOpView::RequireHandle,
            HostOpView::Rebind,
            HostOpView::NamedProperty("resolve"@),
            HostOpView::Call(id@),
        ],
{
    let plan = vec![
        HostOp::RequireHandle,
        HostOp::Rebind,
        HostOp::NamedProperty("resolve".to_owned()),
        HostOp::Call(id.to_owned()),
    ];
    assert(steps(plan@) =~= seq![
        HostOpView::RequireHandle,
        HostOpView::Rebind,
        HostOpView::NamedProperty("resolve"@),
        HostOpView::Call(id@),
    ]);
    plan
}

/// What to ask of the host to import `specifier`: the `import` function of
/// the context's helper object, called with `specifier` and the caller's
/// options.
pub fn import(specifier: &str) -> (plan: Vec<HostOp>)
    ensures
        steps(plan@) == seq![
            HostOpView::EsmHelpersHandle,
            HostOpView::Rebind,
            HostOpView::NamedProperty("import"@),
            HostOpView::CallWithOptions(specifier@),
        ],
{
    let plan = vec![
        HostOp::EsmHelpersHandle,
        HostOp::Rebind,
        HostOp::NamedProperty("import".to_owned()),
        HostOp::CallWithOptions(specifier.to_owned()),
    ];
    assert(steps(plan@) =~= seq![
        HostOpView::EsmHelpersHandle,
        HostOpView::Rebind,
        HostOpView::NamedProperty("import"@),
        HostOpView::CallWithOptions(specifier@),
    ]);
    plan
}

/// What to ask of the host to resolve `specifier` as an import would: the
/// `importMetaResolve` function of the context's helper object, called with
/// `specifier`.
pub fn import_meta_resolve(specifier: &str) -> (plan: Vec<HostOp>)
    ensures
        steps(plan@) == seq![
            HostOpView::EsmHelpersHandle,
            HostOpView::Rebind,
            HostOpView::NamedProperty("importMetaResolve"@),
            HostOpView::Call(specifier@),
        ],
{
    let plan = vec![
        HostOp::EsmHelpersHandle,
        HostOp::Rebind,
        HostOp::NamedProperty("importMetaResolve".to_owned()),
        HostOp::Call(specifier.to_owned()),
    ];
    assert(steps(plan@) =~= seq![
        HostOpView::EsmHelpersHandle,
        HostOpView::Rebind,
        HostOpView::NamedProperty("importMetaResolve"@),
        HostOpView::Call(specifier@),
    ]);
    plan
}

/// What to ask of the host for the program's entry point: the `main` property
/// of the context's `require` function. The host may have none to report.
pub fn entry_point() -> (plan: Vec<HostOp>)
    ensures
        steps(plan@) == seq![
            HostOpView::RequireHandle,
            HostOpView::Rebind,
            HostOpView::NamedProperty("main"@),
        ],
{
    let plan = vec![
        HostOp::RequireHandle,
        HostOp::Rebind,
        HostOp::NamedProperty("main".to_owned()),
    ];
    assert(steps(plan@) =~= seq![
        HostOpView::RequireHandle,
        HostOpView::Rebind,
        HostOpView::NamedProperty("main"@),
    ]);
    plan
}

/// What to ask of an entry point for its file name: its `filename` property.
pub fn entry_point_filename() -> (plan: Vec<HostOp>)
    ensures
        steps(plan@) == seq![HostOpView::NamedProperty("filename"@)],
{
    let plan = vec![HostOp::NamedProperty("filename".to_owned())];
    assert(steps(plan@) =~= seq![HostOpView::NamedProperty("filename"@)]);
    plan
}

/// Whether the module whose file location is `file_url_string` is the
/// program's entry point, the host having reported the file name of the entry
/// point, or `None` where it has none.
///
/// Without an entry point the answer is `false`, whatever the location. With
/// one, the answer is whether the module's file name and the entry point's
/// are equal as paths; a location that stands for no file name is an error,
/// with its description.
pub fn is_main(file_url_string: &str, entry_point: Option<&str>) -> (result: Result<bool, String>)
    ensures
        match entry_point {
            None => result == Ok::<bool, String>(false),
            Some(main) => match normalized(file_url_string@) {
                Ok(path) => result == Ok::<bool, String>(utf8_paths_equal(path, main@)),
                Err(error) => result matches Err(description) && description@ == error.message(),
            },
        },
        entry_point matches Some(main) && normalized(file_url_string@) == Ok::<
            Seq<char>,
            crate::location::FileUrlStringToUtf8PathBufError,
        >(main@) ==> result == Ok::<bool, String>(true),
{
    match entry_point {
        None => Ok(false),
        Some(main) => match filename(file_url_string) {
            Ok(path) => Ok(paths_equal(path.as_str(), main)),
            Err(description) => Err(description),
        },
    }
}

} // verus!
