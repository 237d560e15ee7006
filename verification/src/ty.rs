//! Type descriptors: the structural kind of a type and what the type system
//! has answered about it.
use vstd::prelude::*;

verus! {

/// Index of a type in a [`crate::program::Program`].
pub type TyId = usize;

/// Index of a monomorphic function instance in a [`crate::program::Program`].
pub type InstanceId = usize;

/// A region of source text.
#[derive(Clone, Copy, Debug, PartialEq, Eq, Structural)]
pub struct Span {
    pub lo: u32,
    pub hi: u32,
}

impl Span {
    /// The span used where no source text is to blame.
    pub open spec fn spec_dummy() -> Span {
        Span { lo: 0, hi: 0 }
    }

    #[verifier::when_used_as_spec(spec_dummy)]
    pub fn dummy() -> (s: Span)
        ensures
            s == Span::spec_dummy(),
    {
        Span { lo: 0, hi: 0 }
    }

    pub fn new(lo: u32, hi: u32) -> (s: Span)
        ensures
            s == (Span { lo, hi }),
    {
        Span { lo, hi }
    }
}

/// A property of a type that the analysis asks about.
#[derive(Clone, Copy, Debug, PartialEq, Eq, Structural)]
pub enum Capability {
    /// The value may be moved to another thread.
    ThreadMovable,
    /// The value may be shared between threads.
    ThreadShareable,
    /// The value may be used from inside a finalizer.
    FinalizerSafe,
    /// The value holds no borrowed reference.
    ReferenceFree,
}

/// A struct, enum or union.
#[derive(Debug)]
pub struct AdtDef {
    /// The owning-indirection wrapper, whose destructor is filled in too late
    /// to be inspected.
    pub is_box: bool,
    /// Defined in the standard library rather than in the checked program.
    pub in_std_lib: bool,
    /// The user-written destructor, resolved for this instantiation.
    pub dtor: Option<InstanceId>,
    /// The types of all fields of all variants, with generic arguments
    /// substituted.
    pub fields: Vec<TyId>,
}

/// The structural kind of a type.
#[derive(Debug)]
pub enum TyKind {
    /// Integers, floats, `bool`, `char`, `str`, `!`, foreign and erroneous types.
    Primitive,
    RawPtr,
    Ref,
    FnDef,
    FnPtr,
    /// A trait object.
    Dynamic,
    Slice(TyId),
    Array(TyId),
    Tuple(Vec<TyId>),
    Adt(AdtDef),
    /// Anything else: closures, coroutines, type parameters.
    Opaque,
}

/// Everything the analysis reads about one type.
#[derive(Debug)]
pub struct TyInfo {
    /// How the type is written in messages.
    pub name: String,
    pub kind: TyKind,
    pub is_copy: bool,
    pub is_send: bool,
    pub is_sync: bool,
    pub is_finalizer_safe: bool,
    pub is_reference_free: bool,
    /// Some destructor is reachable from a value of this type.
    pub needs_finalizer: bool,
    /// The type is wrapped in the marker that opts out of the analysis.
    pub is_finalize_unchecked: bool,
    /// `Some(T)` when this is the handle type around `T`.
    pub gc_pointee: Option<TyId>,
}

impl TyKind {
    /// The types that a value of this kind holds by value.
    pub open spec fn components(&self) -> Seq<TyId> {
        match self {
            TyKind::Slice(e) => seq![*e],
            TyKind::Array(e) => seq![*e],
            TyKind::Tuple(fields) => fields@,
            TyKind::Adt(def) => def.fields@,
            _ => Seq::empty(),
        }
    }

    /// The element type of an array or slice.
    pub open spec fn element(&self) -> Option<TyId> {
        match self {
            TyKind::Slice(e) => Some(*e),
            TyKind::Array(e) => Some(*e),
            _ => None,
        }
    }

    /// The destructor of a struct, enum or union that has one.
    pub open spec fn dtor(&self) -> Option<InstanceId> {
        match self {
            TyKind::Adt(def) => def.dtor,
            _ => None,
        }
    }
}

impl TyInfo {
    /// A type of the given kind about which the type system has answered
    /// favourably throughout: thread-safe, finalizer-safe, free of
    /// references, with nothing to finalize.
    pub fn new(name: String, kind: TyKind) -> (info: TyInfo)
        ensures
            info.name == name,
            info.kind == kind,
            !info.is_copy,
            info.is_send,
            info.is_sync,
            info.is_finalizer_safe,
            info.is_reference_free,
            !info.needs_finalizer,
            !info.is_finalize_unchecked,
            info.gc_pointee.is_none(),
    {
        TyInfo {
            name,
            kind,
            is_copy: false,
            is_send: true,
            is_sync: true,
            is_finalizer_safe: true,
            is_reference_free: true,
            needs_finalizer: false,
            is_finalize_unchecked: false,
            gc_pointee: None,
        }
    }

    pub open spec fn spec_satisfies(&self, cap: Capability) -> bool {
        match cap {
            Capability::ThreadMovable => self.is_send,
            Capability::ThreadShareable => self.is_sync,
            Capability::FinalizerSafe => self.is_finalizer_safe,
            Capability::ReferenceFree => self.is_reference_free,
        }
    }

    /// Whether the type has the capability.
    #[verifier::when_used_as_spec(spec_satisfies)]
    pub fn satisfies(&self, cap: Capability) -> (b: bool)
        ensures
            b == self.spec_satisfies(cap),
    {
        match cap {
            Capability::ThreadMovable => self.is_send,
            Capability::ThreadShareable => self.is_sync,
            Capability::FinalizerSafe => self.is_finalizer_safe,
            Capability::ReferenceFree => self.is_reference_free,
        }
    }

    pub open spec fn spec_is_gc(&self) -> bool {
        self.gc_pointee.is_some()
    }

    /// Whether this is the handle type.
    #[verifier::when_used_as_spec(spec_is_gc)]
    pub fn is_gc(&self) -> (b: bool)
        ensures
            b == self.spec_is_gc(),
    {
        self.gc_pointee.is_some()
    }

    pub open spec fn spec_is_unsafe_ptr(&self) -> bool {
        self.kind is RawPtr
    }

    #[verifier::when_used_as_spec(spec_is_unsafe_ptr)]
    pub fn is_unsafe_ptr(&self) -> (b: bool)
        ensures
            b == self.spec_is_unsafe_ptr(),
    {
        matches!(self.kind, TyKind::RawPtr)
    }

    pub open spec fn spec_is_ref(&self) -> bool {
        self.kind is Ref
    }

    #[verifier::when_used_as_spec(spec_is_ref)]
    pub fn is_ref(&self) -> (b: bool)
        ensures
            b == self.spec_is_ref(),
    {
        matches!(self.kind, TyKind::Ref)
    }

    pub open spec fn spec_has_dtor(&self) -> bool {
        self.kind.dtor().is_some()
    }

    /// Whether the type itself, not one of its fields, has a destructor.
    #[verifier::when_used_as_spec(spec_has_dtor)]
    pub fn has_dtor(&self) -> (b: bool)
        ensures
            b == self.spec_has_dtor(),
    {
        match &self.kind {
            TyKind::Adt(def) => def.dtor.is_some(),
            _ => false,
        }
    }
}

} // verus!
