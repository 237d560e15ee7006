//! The analysis from the top: the pass over a body that constructs handles,
//! the walk over the destructors that a type's drop glue runs, and the
//! worklist over the bodies that one destructor reaches.
use std::collections::VecDeque;
use vstd::prelude::*;
use crate::diagnostics::{around, Diagnostic, DiagnosticView, SpanLabel};
use crate::glue::{lemma_visit_decreases, unvisited};
use crate::findings::{all_wf, FinalizerErrorKind, FnInfo};
use crate::mir::{Body, Callee, Terminator, TerminatorKind};
use crate::program::{block_wf, body_wf, terminator_wf, Program};
use crate::ty::{InstanceId, Span, TyId, TyKind};
use crate::visit::FuncCtxt;

verus! {

/// The pass that finds the constructions of handles in a body and analyses
/// each.
#[derive(PartialEq)]
pub struct CheckFinalizers;

/// The reports of a list of diagnostics, as plain values.
pub open spec fn views(reports: Seq<Diagnostic>) -> Seq<DiagnosticView> {
    reports.map_values(|d: Diagnostic| d@)
}

/// Whether an item of crate `krate` belongs to the standard library, which is
/// made of the crates that define three well-known items. A crate that is not
/// known defines nothing.
pub fn in_std_lib(
    krate: u32,
    alloc_crate: Option<u32>,
    core_crate: Option<u32>,
    std_crate: Option<u32>,
) -> (b: bool)
    ensures
        b == (alloc_crate == Some(krate) || core_crate == Some(krate) || std_crate == Some(krate)),
{
    let in_alloc = match alloc_crate {
        Some(x) => krate == x,
        None => false,
    };
    let in_core = match core_crate {
        Some(x) => krate == x,
        None => false,
    };
    let in_std = match std_crate {
        Some(x) => krate == x,
        None => false,
    };
    in_alloc || in_std || in_core
}

impl Program {
    /// The construction of a handle that the terminator is, if it is one: a
    /// call of a function of the standard library that returns a handle,
    /// resolves to an instance marked as a constructor, and has an argument.
    /// Given are the span of the call, the span of its first argument, and
    /// the type the handle is constructed around.
    pub open spec fn entry_point(&self, term: &Terminator) -> Option<(Span, Span, TyId)> {
        match term.kind {
            TerminatorKind::Call {
                callee: Callee::FnDef {
                    in_std_lib: true,
                    gc_ret: Some(value_ty),
                    instance: Some(i),
                },
                args,
                ..
            } => if self.instances@[i as int].fsa_entry_point && args@.len() > 0 {
                Some((term.span, args@[0].span, value_ty))
            } else {
                None
            },
            _ => None,
        }
    }

    /// The reports for the construction that the terminator is, if it is one.
    pub open spec fn entry_reports(&self, term: &Terminator) -> Seq<DiagnosticView> {
        match self.entry_point(term) {
            Some((fn_span, arg_span, value_ty)) => self.drop_glue_findings(value_ty).map_values(
                |e: FinalizerErrorKind| self.diagnostic(fn_span, arg_span, value_ty, e),
            ),
            None => Seq::empty(),
        }
    }

    /// The reports for the constructions in the first `upto` blocks.
    pub open spec fn blocks_reports(&self, body: &Body, upto: int) -> Seq<DiagnosticView>
        decreases upto,
    {
        if upto <= 0 {
            Seq::empty()
        } else {
            self.blocks_reports(body, upto - 1) + self.entry_reports(
                &body.blocks@[upto - 1].terminator,
            )
        }
    }

    /// The reports of the pass over a body: none for a body of the standard
    /// library, where the handle's own constructors live; else those for each
    /// construction in it, block by block.
    pub open spec fn pass_reports(&self, body: &Body) -> Seq<DiagnosticView> {
        if body.in_std_lib {
            Seq::empty()
        } else {
            self.blocks_reports(body, body.blocks@.len() as int)
        }
    }
}

impl CheckFinalizers {
    /// The construction of a handle that the terminator is, if it is one.
    pub fn entry_point<'a>(prog: &'a Program, term: &Terminator) -> (ecx: Option<
        FSAEntryPointCtxt<'a>,
    >)
        requires
            terminator_wf(
                term,
                prog.types@.len() as int,
                prog.instances@.len() as int,
            ),
        ensures
            match ecx {
                Some(ecx) => ecx.prog == prog && prog.entry_point(term) == Some(
                    (ecx.fn_span, ecx.arg_span, ecx.value_ty),
                ) && ecx.value_ty < prog.types@.len(),
                None => prog.entry_point(term).is_none(),
            },
    {
        match &term.kind {
            TerminatorKind::Call { callee, args, .. } => match callee {
                Callee::FnDef { in_std_lib, gc_ret, instance } => {
                    // Plain conditions first: looking the instance up is what
                    // costs, and few calls get that far.
                    if !*in_std_lib || args.len() == 0 {
                        return None;
                    }
                    match (gc_ret, instance) {
                        (Some(value_ty), Some(i)) => {
                            if prog.instances[*i].fsa_entry_point {
                                let arg_span = args[0].span;
                                Some(FSAEntryPointCtxt::new(term.span, arg_span, *value_ty, prog))
                            } else {
                                None
                            }
                        },
                        _ => None,
                    }
                },
                Callee::FnPtr => None,
            },
            _ => None,
        }
    }

    /// Analyses every construction of a handle in the body and returns the
    /// reports, in the order of the blocks.
    pub fn run_pass(&self, prog: &Program, body: &Body) -> (reports: Vec<Diagnostic>)
        requires
            prog.wf(),
            body_wf(body, prog.types@.len() as int, prog.instances@.len() as int),
        ensures
            views(reports@) == prog.pass_reports(body),
    {
        let mut reports: Vec<Diagnostic> = Vec::new();
        if body.in_std_lib {
            assert(views(reports@) =~= Seq::empty());
            return reports;
        }
        let mut b: usize = 0;
        assert(views(reports@) =~= Seq::empty());
        while b < body.blocks.len()
            invariant
                b <= body.blocks@.len(),
                prog.wf(),
                body_wf(body, prog.types@.len() as int, prog.instances@.len() as int),
                views(reports@) == prog.blocks_reports(body, b as int),
            decreases body.blocks@.len() - b,
        {
            let term = &body.blocks[b].terminator;
            assert(block_wf(
                &body.blocks@[b as int],
                prog.types@.len() as int,
                prog.instances@.len() as int,
            ));
            let ghost before = views(reports@);
            if let Some(ecx) = CheckFinalizers::entry_point(prog, term) {
                let errors = ecx.check_drop_glue();
                let ghost render = |e: FinalizerErrorKind|
                    prog.diagnostic(ecx.fn_span, ecx.arg_span, ecx.value_ty, e);
                let mut k: usize = 0;
                while k < errors.len()
                    invariant
                        k <= errors@.len(),
                        ecx.prog == prog,
                        ecx.value_ty < prog.types@.len(),
                        all_wf(errors@, prog.types@.len() as int),
                        render == |e: FinalizerErrorKind|
                            prog.diagnostic(ecx.fn_span, ecx.arg_span, ecx.value_ty, e),
                        views(reports@) == before + errors@.subrange(0, k as int).map_values(
                            render,
                        ),
                    decreases errors@.len() - k,
                {
                    let ghost old_reports = reports@;
                    let err = ecx.emit_error(errors[k]);
                    reports.push(err);
                    proof {
                        assert(errors@.subrange(0, k + 1) =~= errors@.subrange(0, k as int).push(
                            errors@[k as int],
                        ));
                        assert(views(reports@) =~= views(old_reports).push(err@));
                        assert(views(reports@) =~= before + errors@.subrange(
                            0,
                            k + 1,
                        ).map_values(render));
                    }
                    k += 1;
                }
                assert(errors@.subrange(0, errors@.len() as int) =~= errors@);
            } else {
                assert(views(reports@) =~= before + prog.entry_reports(term));
            }
            b += 1;
        }
        reports
    }
}

/// The analysis of one construction of a handle.
pub struct FSAEntryPointCtxt<'a> {
    /// Span of the call that constructs the handle.
    pub fn_span: Span,
    /// Span of the argument of that call.
    pub arg_span: Span,
    /// Type of the value that the handle is constructed around.
    pub value_ty: TyId,
    pub prog: &'a Program,
}

/// The analysis of one destructor and of everything it calls.
///
/// The destructors of the fields of the type are not its business: the walk
/// over the drop glue gives each of them a context of its own.
pub struct DropCtxt<'a> {
    /// The instances still to be analysed, first come first served.
    pub callsites: VecDeque<InstanceId>,
    /// The type whose destructor is analysed.
    pub drop_ty: TyId,
    pub ecx: &'a FSAEntryPointCtxt<'a>,
    /// For each instance, whether it has been analysed. This keeps a function
    /// from being reported on twice, and keeps recursive calls from going
    /// round for ever.
    pub visited_fns: Vec<bool>,
}

/// Puts each of `fields` on the stack, the first lowest.
fn push_all(tys: &mut Vec<TyId>, fields: &Vec<TyId>)
    ensures
        final(tys)@ == old(tys)@ + fields@,
{
    let mut i: usize = 0;
    while i < fields.len()
        invariant
            i <= fields@.len(),
            tys@ == old(tys)@ + fields@.subrange(0, i as int),
        decreases fields@.len() - i,
    {
        tys.push(fields[i]);
        assert(fields@.subrange(0, i + 1) =~= fields@.subrange(0, i as int).push(
            fields@[i as int],
        ));
        i += 1;
    }
    assert(fields@.subrange(0, fields@.len() as int) =~= fields@);
}

impl<'a> DropCtxt<'a> {
    pub open spec fn inv(&self) -> bool {
        &&& self.ecx.prog.wf()
        &&& self.ecx.prog.worklist_wf(self.callsites@, self.visited_fns@)
        &&& self.drop_ty < self.ecx.prog.types@.len()
    }

    /// What [`DropCtxt::check`] reports from this state.
    pub open spec fn findings(&self) -> Seq<FinalizerErrorKind> {
        self.ecx.prog.worklist_findings(self.drop_ty, self.callsites@, self.visited_fns@)
    }

    pub fn new(drop_instance: InstanceId, drop_ty: TyId, ecx: &'a FSAEntryPointCtxt<'a>) -> (dcx:
        DropCtxt<'a>)
        requires
            ecx.prog.wf(),
            drop_ty < ecx.prog.types@.len(),
            drop_instance < ecx.prog.instances@.len(),
            ecx.prog.mir_available(drop_instance),
        ensures
            dcx.inv(),
            dcx.ecx == ecx,
            dcx.drop_ty == drop_ty,
            dcx.callsites@ == seq![drop_instance],
            dcx.visited_fns@ == ecx.prog.none_visited(),
    {
        let mut callsites = VecDeque::new();
        callsites.push_back(drop_instance);
        let mut visited_fns: Vec<bool> = Vec::new();
        let n = ecx.prog.instances.len();
        while visited_fns.len() < n
            invariant
                n == ecx.prog.instances@.len(),
                visited_fns@.len() <= n,
                forall|i: int| 0 <= i < visited_fns@.len() ==> !visited_fns@[i],
            decreases n - visited_fns@.len(),
        {
            visited_fns.push(false);
        }
        assert(visited_fns@ =~= ecx.prog.none_visited());
        DropCtxt { callsites, ecx, drop_ty, visited_fns }
    }

    /// Analyses the queued instances and all they call, each once: `Ok` when
    /// nothing is found, else every finding, in the order of the visits.
    pub fn check(self) -> (res: Result<(), Vec<FinalizerErrorKind>>)
        requires
            self.inv(),
        ensures
            match res {
                Ok(()) => self.findings().len() == 0,
                Err(e) => e@.len() > 0 && e@ == self.findings() && all_wf(
                    e@,
                    self.ecx.prog.types@.len() as int,
                ),
            },
    {
        let mut dcx = self;
        let mut errors: Vec<FinalizerErrorKind> = Vec::new();
        while dcx.callsites.len() > 0
            invariant
                dcx.inv(),
                dcx.ecx == self.ecx,
                dcx.drop_ty == self.drop_ty,
                all_wf(errors@, self.ecx.prog.types@.len() as int),
                errors@ + dcx.findings() == self.findings(),
            decreases unvisited(dcx.visited_fns@), dcx.callsites@.len(),
        {
            let ghost queue = dcx.callsites@;
            let ghost visited = dcx.visited_fns@;
            let ghost before = errors@;
            let instance = dcx.callsites.pop_front().unwrap();
            assert(instance == queue[0]);
            assert(dcx.ecx.prog.callsites_wf(dcx.callsites@)) by {
                assert forall|i: int| 0 <= i < dcx.callsites@.len() implies (
                #[trigger] dcx.callsites@[i]) < dcx.ecx.prog.instances@.len()
                    && dcx.ecx.prog.mir_available(dcx.callsites@[i]) by {
                    assert(dcx.callsites@[i] == queue[i + 1]);
                }
            }
            if !dcx.visited_fns[instance] {
                dcx.visited_fns.set(instance, true);
                proof {
                    lemma_visit_decreases(visited, instance as int);
                }
                if let Some(mir) = dcx.ecx.prefer_instantiated_mir(instance) {
                    proof {
                        assert(dcx.ecx.prog.instance_wf(instance as int));
                        dcx.ecx.prog.lemma_blocks_calls_wf(mir, mir.blocks@.len() as int);
                    }
                    let (found, calls) = FuncCtxt::new(mir, dcx.ecx.prog, dcx.drop_ty).check();
                    match found {
                        Err(mut e) => errors.append(&mut e),
                        _ => (),
                    }
                    let ghost rest = dcx.callsites@;
                    let mut i: usize = 0;
                    while i < calls.len()
                        invariant
                            i <= calls@.len(),
                            instance < visited.len(),
                            dcx.ecx == self.ecx,
                            dcx.drop_ty == self.drop_ty,
                            dcx.visited_fns@ == visited.update(instance as int, true),
                            dcx.callsites@ == rest + calls@.subrange(0, i as int),
                        decreases calls@.len() - i,
                    {
                        dcx.callsites.push_back(calls[i]);
                        assert(calls@.subrange(0, i + 1) =~= calls@.subrange(0, i as int).push(
                            calls@[i as int],
                        ));
                        i += 1;
                    }
                    proof {
                        assert(calls@.subrange(0, calls@.len() as int) =~= calls@);
                        assert(dcx.ecx.prog.callsites_wf(dcx.callsites@));
                        assert(errors@ == before + dcx.ecx.prog.body_findings(mir, dcx.drop_ty));
                        assert(before + (dcx.ecx.prog.body_findings(mir, dcx.drop_ty)
                            + dcx.findings()) =~= errors@ + dcx.findings());
                    }
                }
            }
        }
        if errors.len() == 0 {
            Ok(())
        } else {
            Err(errors)
        }
    }
}

impl<'a> FSAEntryPointCtxt<'a> {
    pub fn new(fn_span: Span, arg_span: Span, value_ty: TyId, prog: &'a Program) -> (ecx:
        FSAEntryPointCtxt<'a>)
        ensures
            ecx.fn_span == fn_span,
            ecx.arg_span == arg_span,
            ecx.value_ty == value_ty,
            ecx.prog == prog,
    {
        FSAEntryPointCtxt { fn_span, arg_span, value_ty, prog }
    }

    /// Walks the drop glue of the value's type and reports every destructor
    /// in it that cannot run as a finalizer.
    pub fn check_drop_glue(&self) -> (errors: Vec<FinalizerErrorKind>)
        requires
            self.prog.wf(),
            self.value_ty < self.prog.types@.len(),
        ensures
            errors@ == self.prog.drop_glue_findings(self.value_ty),
            all_wf(errors@, self.prog.types@.len() as int),
    {
        let value = &self.prog.types[self.value_ty];
        if !value.needs_finalizer || value.is_finalize_unchecked {
            return Vec::new();
        }
        if value.is_send && value.is_sync && value.is_finalizer_safe {
            return Vec::new();
        }
        let ghost n = self.prog.types@.len() as int;
        let mut errors: Vec<FinalizerErrorKind> = Vec::new();
        let mut tys: Vec<TyId> = Vec::new();
        tys.push(self.value_ty);
        proof {
            assert(tys@.drop_last() =~= Seq::<TyId>::empty());
            assert(tys@.last() == self.value_ty);
            assert(self.prog.stack_findings(Seq::<TyId>::empty(), n) =~= Seq::empty());
            assert(self.prog.stack_findings(tys@, n) =~= self.prog.glue_findings(self.value_ty));
        }
        while tys.len() > 0
            invariant
                self.prog.wf(),
                n == self.prog.types@.len(),
                forall|i: int| 0 <= i < tys@.len() ==> (#[trigger] tys@[i]) < n,
                all_wf(errors@, n),
                errors@ + self.prog.stack_findings(tys@, n) == self.prog.glue_findings(
                    self.value_ty,
                ),
            decreases self.prog.stack_weight(tys@, n),
        {
            let ghost stack = tys@;
            let ghost found = errors@;
            let ty = tys.pop().unwrap();
            let ghost below = tys@;
            proof {
                assert(stack =~= below.push(ty));
                self.prog.lemma_walk_step(below, ty);
                self.prog.lemma_pending_below(ty);
                assert(self.prog.ty_wf(ty as int));
            }
            // Every destructor in the drop glue of `ty` has to be found: that
            // of `ty` itself here, those of its components once they come off
            // the stack.
            let info = &self.prog.types[ty];
            match &info.kind {
                TyKind::Dynamic => {
                    // Dropping a trait object is a virtual call: which
                    // destructor runs cannot be known here, so this is a
                    // finding even where every destructor would be safe.
                    errors.push(
                        FinalizerErrorKind::UnknownTraitObject(FnInfo::new(Span::dummy(), ty)),
                    );
                },
                TyKind::Slice(elem) => {
                    tys.push(*elem);
                },
                TyKind::Array(elem) => {
                    tys.push(*elem);
                },
                TyKind::Tuple(fields) => {
                    push_all(&mut tys, fields);
                },
                TyKind::Adt(def) => {
                    if !info.is_copy {
                        if def.is_box {
                            errors.push(
                                FinalizerErrorKind::MissingFnDef(FnInfo::new(Span::dummy(), ty)),
                            );
                        }
                        let mut collapsed = false;
                        if let Some(drop_instance) = def.dtor {
                            match DropCtxt::new(drop_instance, ty, self).check() {
                                Err(mut e) => {
                                    if def.in_std_lib {
                                        // The fields of such a type are left
                                        // alone: what would be found there is
                                        // nothing the user could mend.
                                        let fn_info = FnInfo::new(Span::dummy(), ty);
                                        errors.push(
                                            FinalizerErrorKind::UnsoundExternalDropGlue(fn_info),
                                        );
                                        collapsed = true;
                                    } else {
                                        errors.append(&mut e);
                                    }
                                },
                                Ok(()) => {},
                            }
                        }
                        if !collapsed {
                            push_all(&mut tys, &def.fields);
                        }
                    }
                },
                _ => {},
            }
            proof {
                assert(tys@ =~= below + self.prog.pending(ty));
                assert(errors@ =~= found + self.prog.own_findings(ty));
                assert(errors@ + self.prog.stack_findings(tys@, n) =~= found + (
                self.prog.own_findings(ty) + self.prog.stack_findings(tys@, n)));
            }
        }
        errors
    }

    /// Turns a finding into the report that the user sees.
    pub fn emit_error(&self, error_kind: FinalizerErrorKind) -> (err: Diagnostic)
        requires
            self.value_ty < self.prog.types@.len(),
            error_kind.wf(self.prog.types@.len() as int),
        ensures
            err@ == self.prog.diagnostic(self.fn_span, self.arg_span, self.value_ty, error_kind),
    {
        let types = &self.prog.types;
        let drop_ty = &types[error_kind.fn_info().drop_ty];
        let message = around("The drop method for `", &drop_ty.name, "` cannot be safely finalized.");
        let mut labels: Vec<SpanLabel> = Vec::new();
        let help: Option<&str>;
        match error_kind {
            FinalizerErrorKind::NotSendAndSync(_, pi) => {
                let this = around("a finalizer cannot safely use this `", &types[pi.ty].name, "`");
                labels.push(SpanLabel::new(pi.span, this));
                labels.push(
                    SpanLabel::from_str(
                        pi.span,
                        "from a drop method because it does not implement `Send` + `Sync`.",
                    ),
                );
                help =
                Some(
                    "`Gc` runs finalizers on a separate thread, so drop methods\nmust only use values which are thread-safe.",
                );
            },
            FinalizerErrorKind::NotFinalizerSafe(_, pi) => {
                // A handle met in a finalizer deserves words of its own.
                if types[pi.ty].is_gc() {
                    let this = around(
                        "a finalizer cannot safely dereference this `",
                        &types[pi.ty].name,
                        "`",
                    );
                    labels.push(SpanLabel::new(pi.span, this));
                    labels.push(
                        SpanLabel::from_str(
                            pi.span,
                            "from a drop method because it might have already been finalized.",
                        ),
                    );
                    help = None;
                } else {
                    let this = around(
                        "a finalizer cannot safely use this `",
                        &types[pi.ty].name,
                        "`",
                    );
                    labels.push(SpanLabel::new(pi.span, this));
                    labels.push(
                        SpanLabel::from_str(
                            pi.span,
                            "from a drop method because it does not implement `FinalizerSafe`.",
                        ),
                    );
                    help =
                    Some(
                        "`Gc` runs finalizers on a separate thread, so drop methods\nmust only use values whose types implement `FinalizerSafe`.",
                    );
                }
            },
            FinalizerErrorKind::UnsoundReference(_, pi) => {
                let this = around(
                    "a finalizer cannot safely dereference this `",
                    &types[pi.ty].name,
                    "`",
                );
                labels.push(SpanLabel::new(pi.span, this));
                labels.push(SpanLabel::from_str(pi.span, "because it might not live long enough."));
                help = Some("`Gc` may run finalizers after the valid lifetime of this reference.");
            },
            FinalizerErrorKind::MissingFnDef(fi) => {
                labels.push(
                    SpanLabel::from_str(
                        fi.span,
                        "this function call may be unsafe to use in a finalizer.",
                    ),
                );
                help = None;
            },
            FinalizerErrorKind::UnknownTraitObject(_) => {
                labels.push(
                    SpanLabel::from_str(
                        self.arg_span,
                        "contains a trait object whose implementation is unknown.",
                    ),
                );
                help = None;
            },
            FinalizerErrorKind::UnsoundExternalDropGlue(fi) => {
                let this = around("this `", &drop_ty.name, "` is not safe to be run as a finalizer");
                labels.push(SpanLabel::new(fi.span, this));
                help = None;
            },
            FinalizerErrorKind::InlineAsm(fi) => {
                labels.push(
                    SpanLabel::from_str(
                        fi.span,
                        "this assembly block is not safe to run in a finalizer",
                    ),
                );
                help = None;
            },
        }
        let value_ty = &types[self.value_ty];
        let cause = around("caused by trying to construct a `Gc<", &value_ty.name, ">` here.");
        labels.push(SpanLabel::new(self.fn_span, cause));
        let help = match help {
            Some(h) => Some(String::from_str(h)),
            None => None,
        };
        let err = Diagnostic { span: self.arg_span, message, labels, help };
        assert(err@.labels =~= self.prog.diagnostic(
            self.fn_span,
            self.arg_span,
            self.value_ty,
            error_kind,
        ).labels);
        err
    }

    /// The body of the instance, where one is available.
    pub fn prefer_instantiated_mir(&self, instance: InstanceId) -> (mir: Option<&'a Body>)
        requires
            instance < self.prog.instances@.len(),
        ensures
            match mir {
                Some(body) => self.prog.instances@[instance as int].body == Some(*body),
                None => !self.prog.mir_available(instance),
            },
    {
        self.prog.instances[instance].body.as_ref()
    }
}

} // verus!
