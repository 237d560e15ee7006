//! What the analysis reports, and the rules that decide it for one place,
//! one terminator and one body.
use vstd::prelude::*;
use crate::mir::{Body, Callee, Location, Place, Statement, Terminator, TerminatorKind};
use crate::program::Program;
use crate::ty::{InstanceId, Span, TyId};

verus! {

/// The projection that a finding blames.
#[derive(Clone, Copy, Debug, PartialEq, Eq, Structural)]
pub struct ProjInfo {
    /// Span of the statement or terminator that holds the projection.
    pub span: Span,
    /// Type that the projection step leads to.
    pub ty: TyId,
}

impl ProjInfo {
    pub fn new(span: Span, ty: TyId) -> (info: ProjInfo)
        ensures
            info == (ProjInfo { span, ty }),
    {
        ProjInfo { span, ty }
    }
}

/// The function that a finding blames: the destructor itself, or a function
/// that it calls, directly or not.
#[derive(Clone, Copy, Debug, PartialEq, Eq, Structural)]
pub struct FnInfo {
    pub span: Span,
    /// Type of the value whose destructor the finding came from.
    pub drop_ty: TyId,
}

impl FnInfo {
    pub fn new(span: Span, drop_ty: TyId) -> (info: FnInfo)
        ensures
            info == (FnInfo { span, drop_ty }),
    {
        FnInfo { span, drop_ty }
    }
}

/// Why a destructor cannot run as a finalizer.
#[derive(Clone, Copy, Debug, PartialEq, Eq, Structural)]
pub enum FinalizerErrorKind {
    /// A value is used that cannot both move to and be shared with another thread.
    NotSendAndSync(FnInfo, ProjInfo),
    /// A value is used whose type is not safe inside a finalizer.
    NotFinalizerSafe(FnInfo, ProjInfo),
    /// A borrowed reference is used, which may no longer be live.
    UnsoundReference(FnInfo, ProjInfo),
    /// A trait object is dropped, whose destructor cannot be known.
    UnknownTraitObject(FnInfo),
    /// A function is called whose body cannot be inspected.
    MissingFnDef(FnInfo),
    /// A destructor of the standard library is unsound for one of the reasons
    /// above, which the user cannot mend.
    UnsoundExternalDropGlue(FnInfo),
    /// An assembly block is run, which can do anything.
    InlineAsm(FnInfo),
}

impl FinalizerErrorKind {
    /// The function that the finding blames.
    #[verifier::when_used_as_spec(spec_fn_info)]
    pub fn fn_info(&self) -> (fi: FnInfo)
        ensures
            fi == self.spec_fn_info(),
    {
        match *self {
            FinalizerErrorKind::NotSendAndSync(fi, _) => fi,
            FinalizerErrorKind::NotFinalizerSafe(fi, _) => fi,
            FinalizerErrorKind::UnsoundReference(fi, _) => fi,
            FinalizerErrorKind::UnknownTraitObject(fi) => fi,
            FinalizerErrorKind::MissingFnDef(fi) => fi,
            FinalizerErrorKind::UnsoundExternalDropGlue(fi) => fi,
            FinalizerErrorKind::InlineAsm(fi) => fi,
        }
    }

    /// The projection that the finding blames, where it blames one.
    #[verifier::when_used_as_spec(spec_proj_info)]
    pub fn proj_info(&self) -> (pi: Option<ProjInfo>)
        ensures
            pi == self.spec_proj_info(),
    {
        match *self {
            FinalizerErrorKind::NotSendAndSync(_, pi) => Some(pi),
            FinalizerErrorKind::NotFinalizerSafe(_, pi) => Some(pi),
            FinalizerErrorKind::UnsoundReference(_, pi) => Some(pi),
            _ => None,
        }
    }

    pub open spec fn spec_fn_info(&self) -> FnInfo {
        match *self {
            FinalizerErrorKind::NotSendAndSync(fi, _) => fi,
            FinalizerErrorKind::NotFinalizerSafe(fi, _) => fi,
            FinalizerErrorKind::UnsoundReference(fi, _) => fi,
            FinalizerErrorKind::UnknownTraitObject(fi) => fi,
            FinalizerErrorKind::MissingFnDef(fi) => fi,
            FinalizerErrorKind::UnsoundExternalDropGlue(fi) => fi,
            FinalizerErrorKind::InlineAsm(fi) => fi,
        }
    }

    pub open spec fn spec_proj_info(&self) -> Option<ProjInfo> {
        match *self {
            FinalizerErrorKind::NotSendAndSync(_, pi) => Some(pi),
            FinalizerErrorKind::NotFinalizerSafe(_, pi) => Some(pi),
            FinalizerErrorKind::UnsoundReference(_, pi) => Some(pi),
            _ => None,
        }
    }

    /// The types that the finding names are among the first `n`.
    pub open spec fn wf(&self, n: int) -> bool {
        &&& self.fn_info().drop_ty < n
        &&& self.proj_info() matches Some(pi) ==> pi.ty < n
    }
}

/// Every finding names types among the first `n` only.
pub open spec fn all_wf(errors: Seq<FinalizerErrorKind>, n: int) -> bool {
    forall|i: int| 0 <= i < errors.len() ==> (#[trigger] errors[i]).wf(n)
}

/// What one type along a projection chain means for the chain.
pub enum ProjStep {
    /// The type is fine: go on to the next step.
    Pass,
    /// A raw pointer: the rest of the chain is the programmer's business.
    Opaque,
    /// The chain ends with this finding.
    Fail(FinalizerErrorKind),
}

/// A finding, or none, as a sequence.
pub open spec fn opt_seq<T>(o: Option<T>) -> Seq<T> {
    match o {
        Some(e) => seq![e],
        None => Seq::empty(),
    }
}

/// The span of the statement or terminator at `location`.
pub open spec fn span_at(body: &Body, location: Location) -> Span {
    let block = body.blocks@[location.block as int];
    if location.statement_index < block.statements@.len() {
        block.statements@[location.statement_index as int].span
    } else {
        block.terminator.span
    }
}

impl Program {
    /// The type that step `i` of the place puts under scrutiny: the field's
    /// type for a field access, the element type for an access into an array
    /// or slice, nothing for any other step.
    pub open spec fn projection_ty(&self, place: &Place, i: int) -> Option<TyId> {
        let elem = place.projection@[i];
        match elem.kind {
            crate::mir::ProjKind::Field => Some(elem.ty),
            crate::mir::ProjKind::Index
            | crate::mir::ProjKind::ConstantIndex
            | crate::mir::ProjKind::Subslice => {
                let base = if i == 0 {
                    place.local_ty
                } else {
                    place.projection@[i - 1].ty
                };
                self.types@[base as int].kind.element()
            },
            _ => None,
        }
    }

    /// The verdict on one type met along a chain.
    pub open spec fn check_step(&self, ty: TyId, fn_info: FnInfo, span: Span) -> ProjStep {
        let info = self.types@[ty as int];
        let proj = ProjInfo { span, ty };
        if info.is_unsafe_ptr() {
            ProjStep::Opaque
        } else if !info.is_send || !info.is_sync {
            ProjStep::Fail(FinalizerErrorKind::NotSendAndSync(fn_info, proj))
        } else if info.is_ref() {
            ProjStep::Fail(FinalizerErrorKind::UnsoundReference(fn_info, proj))
        } else if !info.is_finalizer_safe {
            ProjStep::Fail(FinalizerErrorKind::NotFinalizerSafe(fn_info, proj))
        } else {
            ProjStep::Pass
        }
    }

    /// The finding of the chain from step `from` on: that of the first step,
    /// left to right, whose type fails, unless a raw pointer comes before it.
    pub open spec fn projection_finding(
        &self,
        place: &Place,
        from: int,
        fn_info: FnInfo,
        span: Span,
    ) -> Option<FinalizerErrorKind>
        decreases place.projection@.len() - from,
    {
        if from < 0 || from >= place.projection@.len() {
            None
        } else {
            match self.projection_ty(place, from) {
                None => self.projection_finding(place, from + 1, fn_info, span),
                Some(ty) => match self.check_step(ty, fn_info, span) {
                    ProjStep::Pass => self.projection_finding(place, from + 1, fn_info, span),
                    ProjStep::Opaque => None,
                    ProjStep::Fail(e) => Some(e),
                },
            }
        }
    }

    /// The first finding among the places from index `from` on.
    pub open spec fn places_finding(
        &self,
        places: Seq<Place>,
        from: int,
        fn_info: FnInfo,
        span: Span,
    ) -> Option<FinalizerErrorKind>
        decreases places.len() - from,
    {
        if from < 0 || from >= places.len() {
            None
        } else {
            match self.projection_finding(&places[from], 0, fn_info, span) {
                Some(e) => Some(e),
                None => self.places_finding(places, from + 1, fn_info, span),
            }
        }
    }

    /// Whether the instance has a body to inspect.
    pub open spec fn mir_available(&self, instance: InstanceId) -> bool {
        self.instances@[instance as int].body.is_some()
    }

    /// The instance whose destructor a drop of a `ty` value runs and the
    /// analysis has to follow: none where the type has no destructor of its
    /// own, and none for the handle type, whose destructor is a barrier only.
    pub open spec fn drop_target(&self, ty: TyId) -> Option<InstanceId> {
        let info = self.types@[ty as int];
        if info.is_gc() {
            None
        } else {
            info.kind.dtor()
        }
    }

    /// The instance that the terminator calls, where there is one to follow.
    pub open spec fn terminator_callee(&self, kind: &TerminatorKind) -> Option<InstanceId> {
        match kind {
            TerminatorKind::Call { callee: Callee::FnDef { instance, .. }, .. } => *instance,
            TerminatorKind::Drop { ty, .. } => self.drop_target(*ty),
            _ => None,
        }
    }

    /// The instance that the terminator adds to the worklist: its callee,
    /// where that has a body.
    pub open spec fn terminator_target(&self, kind: &TerminatorKind) -> Option<InstanceId> {
        match self.terminator_callee(kind) {
            Some(i) if self.mir_available(i) => Some(i),
            _ => None,
        }
    }

    /// The finding that the terminator's kind gives rise to, before any of
    /// its places is looked at.
    ///
    /// A call or drop whose target cannot be followed is a missing definition;
    /// so is a call that may hand the receiver on, since what the callee does
    /// with it is not tracked; an assembly block is always a finding.
    pub open spec fn terminator_kind_finding(
        &self,
        body: &Body,
        term: &Terminator,
        drop_ty: TyId,
    ) -> Option<FinalizerErrorKind> {
        match term.kind {
            TerminatorKind::Call { callee, args, fn_span } => {
                let span = match callee {
                    Callee::FnDef { .. } => fn_span,
                    Callee::FnPtr => term.span,
                };
                if self.terminator_target(&term.kind).is_none() {
                    Some(FinalizerErrorKind::MissingFnDef(FnInfo { span, drop_ty }))
                } else if TerminatorKind::passes_receiver(args@, body.receiver_ty) {
                    Some(FinalizerErrorKind::MissingFnDef(FnInfo { span: fn_span, drop_ty }))
                } else {
                    None
                }
            },
            TerminatorKind::Drop { ty, .. } => {
                if self.drop_target(ty).is_some() && self.terminator_target(&term.kind).is_none() {
                    Some(FinalizerErrorKind::MissingFnDef(FnInfo { span: term.span, drop_ty }))
                } else {
                    None
                }
            },
            TerminatorKind::InlineAsm => Some(
                FinalizerErrorKind::InlineAsm(FnInfo { span: term.span, drop_ty }),
            ),
            _ => None,
        }
    }

    /// The one finding, if any, that the terminator contributes: that of its
    /// kind, else the first among its places.
    pub open spec fn terminator_finding(
        &self,
        body: &Body,
        term: &Terminator,
        drop_ty: TyId,
    ) -> Option<FinalizerErrorKind> {
        match self.terminator_kind_finding(body, term, drop_ty) {
            Some(e) => Some(e),
            None => self.places_finding(
                term.places@,
                0,
                FnInfo { span: body.span, drop_ty },
                term.span,
            ),
        }
    }

    /// The one finding, if any, that the statement contributes.
    pub open spec fn statement_finding(
        &self,
        body: &Body,
        stmt: &Statement,
        drop_ty: TyId,
    ) -> Option<FinalizerErrorKind> {
        self.places_finding(stmt.places@, 0, FnInfo { span: body.span, drop_ty }, stmt.span)
    }

    /// The findings of the first `upto` statements, in order.
    pub open spec fn statements_findings(
        &self,
        body: &Body,
        stmts: Seq<Statement>,
        upto: int,
        drop_ty: TyId,
    ) -> Seq<FinalizerErrorKind>
        decreases upto,
    {
        if upto <= 0 {
            Seq::empty()
        } else {
            self.statements_findings(body, stmts, upto - 1, drop_ty) + opt_seq(
                self.statement_finding(body, &stmts[upto - 1], drop_ty),
            )
        }
    }

    /// The findings of the first `upto` blocks: for each block those of its
    /// statements, then that of its terminator. No position contributes more
    /// than one.
    pub open spec fn blocks_findings(&self, body: &Body, upto: int, drop_ty: TyId) -> Seq<
        FinalizerErrorKind,
    >
        decreases upto,
    {
        if upto <= 0 {
            Seq::empty()
        } else {
            let block = body.blocks@[upto - 1];
            self.blocks_findings(body, upto - 1, drop_ty) + self.statements_findings(
                body,
                block.statements@,
                block.statements@.len() as int,
                drop_ty,
            ) + opt_seq(self.terminator_finding(body, &block.terminator, drop_ty))
        }
    }

    /// Everything that the analysis of one body reports.
    pub open spec fn body_findings(&self, body: &Body, drop_ty: TyId) -> Seq<FinalizerErrorKind> {
        self.blocks_findings(body, body.blocks@.len() as int, drop_ty)
    }

    /// The instances that the first `upto` blocks add to the worklist.
    pub open spec fn blocks_calls(&self, body: &Body, upto: int) -> Seq<InstanceId>
        decreases upto,
    {
        if upto <= 0 {
            Seq::empty()
        } else {
            self.blocks_calls(body, upto - 1) + opt_seq(
                self.terminator_target(&body.blocks@[upto - 1].terminator.kind),
            )
        }
    }

    /// The instances that one body adds to the worklist, in block order.
    pub open spec fn body_calls(&self, body: &Body) -> Seq<InstanceId> {
        self.blocks_calls(body, body.blocks@.len() as int)
    }
}

} // verus!
