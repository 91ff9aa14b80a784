//! What the library asks of the host.
//!
//! The host is reached through a handful of operations on its values: read
//! the global object, read a named property, call a function, keep a value
//! beyond the present call into native code, and take such a kept value up
//! again. The library never performs them. It says, as a list of `HostOp`s,
//! which are to be performed in which order; each one works on the value that
//! the one before it left, and the first failure ends the list.

use vstd::prelude::*;

verus! {

/// One operation on the host.
#[derive(Debug, Clone, PartialEq, Eq)]
pub enum HostOp {
    /// Take the global object.
    Global,
    /// Read the property of this name from the present value.
    NamedProperty(String),
    /// Call the present value with this text as its one argument.
    Call(String),
    /// Call the present value with this text and, after it, the options that
    /// the caller of the library passed along, if any.
    CallWithOptions(String),
    /// Keep the present value, a function, beyond the present call into
    /// native code.
    CreateFunctionRef,
    /// Keep the present value, an object, beyond the present call into native
    /// code.
    CreateObjectRef,
    /// Take the kept `require` function of the running module's context.
    RequireHandle,
    /// Take the kept helper object of the running module's context.
    EsmHelpersHandle,
    /// Make the kept value that was just taken usable in the present call.
    Rebind,
}

/// A `HostOp` with its text as a sequence of characters.
pub enum HostOpView {
    Global,
    NamedProperty(Seq<char>),
    Call(Seq<char>),
    CallWithOptions(Seq<char>),
    CreateFunctionRef,
    CreateObjectRef,
    RequireHandle,
    EsmHelpersHandle,
    Rebind,
}

impl View for HostOp {
    type V = HostOpView;

    open spec fn view(&self) -> HostOpView {
        match self {
            HostOp::Global => HostOpView::Global,
            HostOp::NamedProperty(name) => HostOpView::NamedProperty(name@),
            HostOp::Call(argument) => HostOpView::Call(argument@),
            HostOp::CallWithOptions(argument) => HostOpView::CallWithOptions(argument@),
            HostOp::CreateFunctionRef => HostOpView::CreateFunctionRef,
            HostOp::CreateObjectRef => HostOpView::CreateObjectRef,
            HostOp::RequireHandle => HostOpView::RequireHandle,
            HostOp::EsmHelpersHandle => HostOpView::EsmHelpersHandle,
            HostOp::Rebind => HostOpView::Rebind,
        }
    }
}

/// A list of operations, each taken by its view.
pub open spec fn steps(plan: Seq<HostOp>) -> Seq<HostOpView> {
    plan.map_values(|op: HostOp| op@)
}

} // verus!
