//! Function bodies as control-flow graphs, reduced to what the analysis reads.
use vstd::prelude::*;
use crate::ty::{InstanceId, Span, TyId};

verus! {

/// One step of a path into a value.
#[derive(Clone, Copy, Debug, PartialEq, Eq, Structural)]
pub enum ProjKind {
    Deref,
    Field,
    Index,
    ConstantIndex,
    Subslice,
    Downcast,
    OpaqueCast,
}

/// A step together with the type of the place it leads to.
#[derive(Clone, Copy, Debug, PartialEq, Eq, Structural)]
pub struct ProjElem {
    pub kind: ProjKind,
    pub ty: TyId,
}

/// A path into a value: a local variable and the steps taken from it.
#[derive(Debug)]
pub struct Place {
    /// The type of the local that the path starts from.
    pub local_ty: TyId,
    pub projection: Vec<ProjElem>,
}

/// A position in a body: a statement of a block, or the block's terminator,
/// whose index is the number of statements.
#[derive(Clone, Copy, Debug, PartialEq, Eq, Structural)]
pub struct Location {
    pub block: usize,
    pub statement_index: usize,
}

#[derive(Debug)]
pub struct Statement {
    pub span: Span,
    /// The places the statement reads or writes, in evaluation order.
    pub places: Vec<Place>,
}

/// What a call terminator calls.
#[derive(Clone, Copy, Debug, PartialEq, Eq, Structural)]
pub enum Callee {
    /// A function item.
    FnDef {
        /// The item is defined in the standard library.
        in_std_lib: bool,
        /// `Some(T)` when the item returns the handle type around `T`.
        gc_ret: Option<TyId>,
        /// The instance that the call resolves to, where it resolves.
        instance: Option<InstanceId>,
    },
    /// A function pointer.
    FnPtr,
}

/// An argument of a call.
#[derive(Clone, Copy, Debug, PartialEq, Eq, Structural)]
pub struct CallArg {
    pub span: Span,
    /// The type that the callee declares for this parameter.
    pub param_ty: TyId,
}

#[derive(Debug)]
pub enum TerminatorKind {
    Call { callee: Callee, args: Vec<CallArg>, fn_span: Span },
    /// The end-of-scope destructor call for a value of type `ty`.
    Drop { ty: TyId, target: usize },
    InlineAsm,
    Goto { target: usize },
    /// Returns, branches, assertions and the like.
    Other,
}

#[derive(Debug)]
pub struct Terminator {
    pub span: Span,
    pub kind: TerminatorKind,
    /// The places the terminator reads or writes, in evaluation order.
    pub places: Vec<Place>,
}

#[derive(Debug)]
pub struct BasicBlock {
    pub statements: Vec<Statement>,
    pub terminator: Terminator,
}

#[derive(Debug)]
pub struct Body {
    pub span: Span,
    /// The declared type of the receiver parameter, for a method.
    pub receiver_ty: Option<TyId>,
    /// The body belongs to the standard library.
    pub in_std_lib: bool,
    pub blocks: Vec<BasicBlock>,
}

/// A function with its generic arguments fixed. Two instantiations of one
/// generic function are two instances.
#[derive(Debug)]
pub struct Instance {
    /// The function is marked as a constructor of the handle type.
    pub fsa_entry_point: bool,
    /// The body, where one is available.
    pub body: Option<Body>,
}

impl TerminatorKind {
    /// Whether the call may hand the caller's receiver on: whether some
    /// parameter is declared with the receiver's own type. Which value is
    /// passed is not looked at, so a call that takes another value of that
    /// type counts as well.
    pub open spec fn passes_receiver(args: Seq<CallArg>, receiver_ty: Option<TyId>) -> bool {
        exists|i: int| 0 <= i < args.len() && receiver_ty == Some((#[trigger] args[i]).param_ty)
    }
}

} // verus!
