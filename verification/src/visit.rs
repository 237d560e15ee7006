//! The walk over one body: every place of every statement and terminator is
//! checked, and every call and drop is noted for the worklist.
use vstd::prelude::*;
use crate::findings::{all_wf, opt_seq, span_at, FinalizerErrorKind, FnInfo, ProjInfo};
use crate::mir::{
    Body, CallArg, Callee, Location, Place, ProjKind, Statement, Terminator, TerminatorKind,
};
use crate::program::{block_wf, body_wf, place_wf, places_wf, Program};
use crate::ty::{InstanceId, Span, TyId, TyKind};

verus! {

/// The state of the walk over one body.
pub struct FuncCtxt<'a> {
    pub body: &'a Body,
    pub prog: &'a Program,
    /// The type whose destructor led to this body.
    pub drop_ty: TyId,
    /// The findings so far, in the order they were made.
    pub errors: Vec<FinalizerErrorKind>,
    /// The positions that a finding was kept for.
    pub error_locs: Vec<Location>,
    /// The instances met so far that have to be analysed in turn.
    pub callsites: Vec<InstanceId>,
}

/// Whether `location` is among `locs`.
fn contains(locs: &Vec<Location>, location: Location) -> (found: bool)
    ensures
        found == locs@.contains(location),
{
    let mut i: usize = 0;
    while i < locs.len()
        invariant
            i <= locs@.len(),
            forall|j: int| 0 <= j < i ==> locs@[j] != location,
        decreases locs@.len() - i,
    {
        let l = locs[i];
        if l.block == location.block && l.statement_index == location.statement_index {
            return true;
        }
        i += 1;
    }
    false
}

/// Whether a call may hand the caller's receiver on: whether some parameter
/// is declared with the receiver's own type.
pub fn passes_receiver(args: &Vec<CallArg>, receiver_ty: Option<TyId>) -> (b: bool)
    ensures
        b == TerminatorKind::passes_receiver(args@, receiver_ty),
{
    match receiver_ty {
        None => false,
        Some(recv) => {
            let mut i: usize = 0;
            while i < args.len()
                invariant
                    i <= args@.len(),
                    receiver_ty == Some(recv),
                    forall|j: int| 0 <= j < i ==> (#[trigger] args@[j]).param_ty != recv,
                decreases args@.len() - i,
            {
                if args[i].param_ty == recv {
                    return true;
                }
                i += 1;
            }
            false
        },
    }
}

impl<'a> FuncCtxt<'a> {
    pub open spec fn inv(&self) -> bool {
        &&& self.prog.wf()
        &&& body_wf(self.body, self.prog.types@.len() as int, self.prog.instances@.len() as int)
        &&& self.drop_ty < self.prog.types@.len()
        &&& all_wf(self.errors@, self.prog.types@.len() as int)
    }

    /// Whether `l` names a statement or the terminator of a block of the body.
    pub open spec fn valid_location(&self, l: Location) -> bool {
        &&& l.block < self.body.blocks@.len()
        &&& l.statement_index <= self.body.blocks@[l.block as int].statements@.len()
    }

    /// Whether `statement` is the statement of the body at `l`.
    pub open spec fn at_statement(&self, l: Location, statement: &Statement) -> bool {
        let block = self.body.blocks@[l.block as int];
        &&& self.valid_location(l)
        &&& l.statement_index < block.statements@.len()
        &&& *statement == block.statements@[l.statement_index as int]
    }

    /// Whether `terminator` is the terminator of the body at `l`.
    pub open spec fn at_terminator(&self, l: Location, terminator: &Terminator) -> bool {
        let block = self.body.blocks@[l.block as int];
        &&& self.valid_location(l)
        &&& l.statement_index == block.statements@.len()
        &&& *terminator == block.terminator
    }

    pub open spec fn same_frame(&self, prev: &FuncCtxt<'a>) -> bool {
        &&& self.body == prev.body
        &&& self.prog == prev.prog
        &&& self.drop_ty == prev.drop_ty
    }

    pub open spec fn fn_info(&self) -> FnInfo {
        FnInfo { span: self.body.span, drop_ty: self.drop_ty }
    }

    /// `self` is what `prev` becomes when `finding` is reported at `location`:
    /// a finding is kept unless one was kept for that position already.
    pub open spec fn recorded(
        &self,
        prev: &FuncCtxt<'a>,
        location: Location,
        finding: Option<FinalizerErrorKind>,
    ) -> bool {
        &&& self.same_frame(prev)
        &&& match finding {
            Some(e) if !prev.error_locs@.contains(location) => {
                &&& self.errors@ == prev.errors@.push(e)
                &&& self.error_locs@ == prev.error_locs@.push(location)
            },
            _ => {
                &&& self.errors@ == prev.errors@
                &&& self.error_locs@ == prev.error_locs@
            },
        }
    }

    pub fn new(body: &'a Body, prog: &'a Program, drop_ty: TyId) -> (fcx: FuncCtxt<'a>)
        ensures
            fcx.body == body,
            fcx.prog == prog,
            fcx.drop_ty == drop_ty,
            fcx.errors@.len() == 0,
            fcx.error_locs@.len() == 0,
            fcx.callsites@.len() == 0,
    {
        FuncCtxt {
            body,
            prog,
            drop_ty,
            errors: Vec::new(),
            error_locs: Vec::new(),
            callsites: Vec::new(),
        }
    }

    /// Analyses the body: its findings, or `Ok` when there are none, and the
    /// instances that it adds to the worklist.
    pub fn check(self) -> (res: (Result<(), Vec<FinalizerErrorKind>>, Vec<InstanceId>))
        requires
            self.inv(),
            self.errors@.len() == 0,
            self.error_locs@.len() == 0,
            self.callsites@.len() == 0,
        ensures
            match res.0 {
                Ok(()) => self.prog.body_findings(self.body, self.drop_ty).len() == 0,
                Err(e) => e@.len() > 0 && e@ == self.prog.body_findings(self.body, self.drop_ty)
                    && all_wf(e@, self.prog.types@.len() as int),
            },
            res.1@ == self.prog.body_calls(self.body),
    {
        let mut fcx = self;
        fcx.visit_body();
        if fcx.errors.len() == 0 {
            (Ok(()), fcx.callsites)
        } else {
            (Err(fcx.errors), fcx.callsites)
        }
    }

    /// Keeps `error` unless a finding was kept for `location` already.
    pub fn push_error(&mut self, location: Location, error: FinalizerErrorKind)
        requires
            old(self).inv(),
            error.wf(old(self).prog.types@.len() as int),
        ensures
            final(self).inv(),
            final(self).recorded(old(self), location, Some(error)),
            final(self).callsites == old(self).callsites,
    {
        if contains(&self.error_locs, location) {
            return ;
        }
        self.errors.push(error);
        self.error_locs.push(location);
    }

    /// The type that step `i` of the place puts under scrutiny.
    pub fn extract_projection_ty(&self, place: &Place, i: usize) -> (ty: Option<TyId>)
        requires
            self.prog.wf(),
            place_wf(place, self.prog.types@.len() as int),
            i < place.projection@.len(),
        ensures
            ty == self.prog.projection_ty(place, i as int),
            ty matches Some(t) ==> t < self.prog.types@.len(),
    {
        let elem = place.projection[i];
        match elem.kind {
            ProjKind::Field => Some(elem.ty),
            ProjKind::Index | ProjKind::ConstantIndex | ProjKind::Subslice => {
                let base = if i == 0 {
                    place.local_ty
                } else {
                    place.projection[i - 1].ty
                };
                assert(self.prog.ty_wf(base as int));
                match &self.prog.types[base].kind {
                    TyKind::Array(ty) => {
                        assert(self.prog.types@[base as int].kind.components()[0] == *ty);
                        Some(*ty)
                    },
                    TyKind::Slice(ty) => {
                        assert(self.prog.types@[base as int].kind.components()[0] == *ty);
                        Some(*ty)
                    },
                    _ => None,
                }
            },
            _ => None,
        }
    }

    fn source_span(&self, location: Location) -> (span: Span)
        requires
            self.valid_location(location),
        ensures
            span == span_at(self.body, location),
    {
        let block = &self.body.blocks[location.block];
        if location.statement_index < block.statements.len() {
            block.statements[location.statement_index].span
        } else {
            block.terminator.span
        }
    }

    /// Checks the type of each step of the place, left to right, and reports
    /// the first that fails.
    pub fn visit_projection(&mut self, place: &Place, location: Location)
        requires
            old(self).inv(),
            old(self).valid_location(location),
            place_wf(place, old(self).prog.types@.len() as int),
        ensures
            final(self).inv(),
            final(self).recorded(
                old(self),
                location,
                old(self).prog.projection_finding(
                    place,
                    0,
                    old(self).fn_info(),
                    span_at(old(self).body, location),
                ),
            ),
            final(self).callsites == old(self).callsites,
    {
        let span = self.source_span(location);
        let fn_info = FnInfo::new(self.body.span, self.drop_ty);
        let mut i: usize = 0;
        while i < place.projection.len()
            invariant
                i <= place.projection@.len(),
                *self == *old(self),
                self.inv(),
                place_wf(place, self.prog.types@.len() as int),
                fn_info == self.fn_info(),
                span == span_at(self.body, location),
                self.prog.projection_finding(place, i as int, fn_info, span)
                    == self.prog.projection_finding(place, 0, fn_info, span),
            decreases place.projection@.len() - i,
        {
            match self.extract_projection_ty(place, i) {
                None => {},
                Some(ty) => {
                    let proj_info = ProjInfo::new(span, ty);
                    let info = &self.prog.types[ty];
                    if info.is_unsafe_ptr() {
                        return ;
                    }
                    if !info.is_send || !info.is_sync {
                        self.push_error(
                            location,
                            FinalizerErrorKind::NotSendAndSync(fn_info, proj_info),
                        );
                        return ;
                    }
                    if info.is_ref() {
                        self.push_error(
                            location,
                            FinalizerErrorKind::UnsoundReference(fn_info, proj_info),
                        );
                        return ;
                    }
                    if !info.is_finalizer_safe {
                        self.push_error(
                            location,
                            FinalizerErrorKind::NotFinalizerSafe(fn_info, proj_info),
                        );
                        return ;
                    }
                },
            }
            i += 1;
        }
    }

    /// Visits the places of a statement or terminator in order.
    fn visit_places(&mut self, places: &Vec<Place>, location: Location)
        requires
            old(self).inv(),
            old(self).valid_location(location),
            places_wf(places@, old(self).prog.types@.len() as int),
        ensures
            final(self).inv(),
            final(self).recorded(
                old(self),
                location,
                old(self).prog.places_finding(
                    places@,
                    0,
                    old(self).fn_info(),
                    span_at(old(self).body, location),
                ),
            ),
            final(self).callsites == old(self).callsites,
    {
        let ghost fn_info = self.fn_info();
        let ghost span = span_at(self.body, location);
        let mut i: usize = 0;
        while i < places.len()
            invariant
                i <= places@.len(),
                self.same_frame(old(self)),
                self.callsites == old(self).callsites,
                self.inv(),
                self.valid_location(location),
                places_wf(places@, self.prog.types@.len() as int),
                fn_info == self.fn_info(),
                span == span_at(self.body, location),
                ({
                    ||| {
                        &&& self.errors@ == old(self).errors@
                        &&& self.error_locs@ == old(self).error_locs@
                        &&& self.prog.places_finding(places@, i as int, fn_info, span)
                            == self.prog.places_finding(places@, 0, fn_info, span)
                    }
                    ||| {
                        &&& self.error_locs@.contains(location)
                        &&& self.recorded(
                            old(self),
                            location,
                            self.prog.places_finding(places@, 0, fn_info, span),
                        )
                    }
                }),
            decreases places@.len() - i,
        {
            let ghost locs = self.error_locs@;
            self.visit_projection(&places[i], location);
            assert(locs.push(location).last() == location);
            i += 1;
        }
    }

    /// Reports what the statement at `location` contributes.
    pub fn visit_statement(&mut self, statement: &Statement, location: Location)
        requires
            old(self).inv(),
            old(self).at_statement(location, statement),
        ensures
            final(self).inv(),
            final(self).recorded(
                old(self),
                location,
                old(self).prog.statement_finding(old(self).body, statement, old(self).drop_ty),
            ),
            final(self).callsites == old(self).callsites,
    {
        proof {
            let body = self.body;
            assert(block_wf(
                &body.blocks@[location.block as int],
                self.prog.types@.len() as int,
                self.prog.instances@.len() as int,
            ));
        }
        self.visit_places(&statement.places, location);
    }

    /// Reports what the terminator at `location` contributes, and notes the
    /// instance that it calls.
    pub fn visit_terminator(&mut self, terminator: &Terminator, location: Location)
        requires
            old(self).inv(),
            old(self).at_terminator(location, terminator),
        ensures
            final(self).inv(),
            final(self).recorded(
                old(self),
                location,
                old(self).prog.terminator_finding(old(self).body, terminator, old(self).drop_ty),
            ),
            final(self).callsites@ == old(self).callsites@ + opt_seq(
                old(self).prog.terminator_target(&terminator.kind),
            ),
    {
        proof {
            let body = self.body;
            assert(block_wf(
                &body.blocks@[location.block as int],
                self.prog.types@.len() as int,
                self.prog.instances@.len() as int,
            ));
        }
        let (instance, info, hands_on_receiver) = match &terminator.kind {
            TerminatorKind::Call { callee, args, fn_span } => {
                match callee {
                    Callee::FnDef { instance, .. } => {
                        let info = FnInfo::new(*fn_span, self.drop_ty);
                        (*instance, info, passes_receiver(args, self.body.receiver_ty))
                    },
                    Callee::FnPtr => {
                        // A call through a pointer cannot be followed.
                        (None, FnInfo::new(terminator.span, self.drop_ty), false)
                    },
                }
            },
            TerminatorKind::Drop { ty, .. } => {
                let glue_ty = &self.prog.types[*ty];
                if !glue_ty.has_dtor() || glue_ty.is_gc() {
                    // Only a destructor of the type itself matters here: the
                    // fields of the value have drop terminators of their own.
                    // The handle type's destructor is a barrier and is safe.
                    assert(self.prog.terminator_target(&terminator.kind).is_none());
                    self.visit_places(&terminator.places, location);
                    return ;
                }
                assert(self.prog.ty_wf(*ty as int));
                let instance = match &glue_ty.kind {
                    TyKind::Adt(def) => def.dtor,
                    _ => None,
                };
                (instance, FnInfo::new(terminator.span, self.drop_ty), false)
            },
            TerminatorKind::InlineAsm => {
                let info = FnInfo::new(terminator.span, self.drop_ty);
                self.push_error(location, FinalizerErrorKind::InlineAsm(info));
                return ;
            },
            _ => {
                self.visit_places(&terminator.places, location);
                return ;
            },
        };
        assert(instance == self.prog.terminator_callee(&terminator.kind));
        match instance {
            Some(instance) if self.prog.instances[instance].body.is_some() => {
                self.callsites.push(instance);
                if hands_on_receiver {
                    // What the callee does with the receiver is not tracked.
                    self.push_error(location, FinalizerErrorKind::MissingFnDef(info));
                }
            },
            _ => self.push_error(location, FinalizerErrorKind::MissingFnDef(info)),
        }
        assert(self.callsites@ == old(self).callsites@ + opt_seq(
            self.prog.terminator_target(&terminator.kind),
        ));
        assert(self.error_locs@ == old(self).error_locs@ || self.error_locs@.last() == location);
        self.visit_places(&terminator.places, location);
    }

    /// Visits every block: its statements in order, then its terminator.
    pub fn visit_body(&mut self)
        requires
            old(self).inv(),
            old(self).errors@.len() == 0,
            old(self).error_locs@.len() == 0,
            old(self).callsites@.len() == 0,
        ensures
            final(self).inv(),
            final(self).same_frame(old(self)),
            final(self).errors@ == old(self).prog.body_findings(old(self).body, old(self).drop_ty),
            final(self).callsites@ == old(self).prog.body_calls(old(self).body),
    {
        let body = self.body;
        let mut b: usize = 0;
        while b < body.blocks.len()
            invariant
                b <= body.blocks@.len(),
                body == self.body,
                self.same_frame(old(self)),
                self.inv(),
                self.errors@ == self.prog.blocks_findings(body, b as int, self.drop_ty),
                self.callsites@ == self.prog.blocks_calls(body, b as int),
                forall|k: int|
                    0 <= k < self.error_locs@.len() ==> (#[trigger] self.error_locs@[k]).block < b,
            decreases body.blocks@.len() - b,
        {
            let block = &body.blocks[b];
            let mut s: usize = 0;
            while s < block.statements.len()
                invariant
                    b < body.blocks@.len(),
                    *block == body.blocks@[b as int],
                    s <= block.statements@.len(),
                    body == self.body,
                    self.same_frame(old(self)),
                    self.inv(),
                    self.errors@ == self.prog.blocks_findings(body, b as int, self.drop_ty)
                        + self.prog.statements_findings(
                        body,
                        block.statements@,
                        s as int,
                        self.drop_ty,
                    ),
                    self.callsites@ == self.prog.blocks_calls(body, b as int),
                    forall|k: int|
                        0 <= k < self.error_locs@.len() ==> {
                            let l = #[trigger] self.error_locs@[k];
                            l.block < b || (l.block == b && l.statement_index < s)
                        },
                decreases block.statements@.len() - s,
            {
                let location = Location { block: b, statement_index: s };
                let ghost before = self.errors@;
                self.visit_statement(&block.statements[s], location);
                proof {
                    let stmts = block.statements@;
                    let f = self.prog.statement_finding(body, &stmts[s as int], self.drop_ty);
                    assert(self.errors@ == before + opt_seq(f));
                    assert(self.prog.statements_findings(body, stmts, s + 1, self.drop_ty)
                        == self.prog.statements_findings(body, stmts, s as int, self.drop_ty)
                        + opt_seq(f));
                }
                s += 1;
            }
            let location = Location { block: b, statement_index: s };
            let ghost before = self.errors@;
            self.visit_terminator(&block.terminator, location);
            proof {
                let f = self.prog.terminator_finding(body, &block.terminator, self.drop_ty);
                assert(self.errors@ == before + opt_seq(f));
            }
            b += 1;
        }
    }
}

} // verus!
