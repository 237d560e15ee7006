use finalizer_safety::check_finalizers::{in_std_lib, CheckFinalizers, FSAEntryPointCtxt};
use finalizer_safety::visit::passes_receiver;
use finalizer_safety::diagnostics::{around, Diagnostic, SpanLabel};
use finalizer_safety::findings::{FinalizerErrorKind, FnInfo, ProjInfo};
use finalizer_safety::mir::{
    BasicBlock, Body, CallArg, Callee, Instance, Place, ProjElem, ProjKind, Statement, Terminator,
    TerminatorKind,
};
use finalizer_safety::program::Program;
use finalizer_safety::remove_elidable_drops::RemoveElidableDrops;
use finalizer_safety::ty::{AdtDef, Span, TyId, TyInfo, TyKind};

fn at(n: u32) -> Span {
    Span::new(n, n + 1)
}

fn named(name: &str, kind: TyKind) -> TyInfo {
    TyInfo::new(name.to_string(), kind)
}

fn plain_adt(fields: Vec<TyId>, dtor: Option<usize>) -> TyKind {
    TyKind::Adt(AdtDef { is_box: false, in_std_lib: false, dtor, fields })
}

fn labels(d: &Diagnostic) -> Vec<(Span, &str)> {
    d.labels.iter().map(|l: &SpanLabel| (l.span, l.label.as_str())).collect()
}

/// 0: `Rc<u8>` (not thread-safe), 1: `Wrapper<Rc<u8>>` with a destructor
/// that reads its field, 2: `&mut Wrapper<Rc<u8>>`, 3: `Gc<u8>`, 4: `u8`.
/// Instance 0 is the destructor, instance 1 the handle's constructor.
fn wrapper_program() -> Program {
    let mut rc = named("Rc<u8>", plain_adt(vec![], None));
    rc.is_send = false;
    rc.is_sync = false;
    let mut wrapper = named("Wrapper<Rc<u8>>", plain_adt(vec![0], Some(0)));
    wrapper.is_send = false;
    wrapper.is_sync = false;
    wrapper.needs_finalizer = true;
    let mut gc = named("Gc<u8>", plain_adt(vec![], None));
    gc.gc_pointee = Some(4);
    gc.is_finalizer_safe = false;
    let drop_wrapper = Body {
        span: at(10),
        receiver_ty: Some(2),
        in_std_lib: false,
        blocks: vec![BasicBlock {
            statements: vec![Statement {
                span: at(11),
                places: vec![Place {
                    local_ty: 2,
                    projection: vec![
                        ProjElem { kind: ProjKind::Deref, ty: 1 },
                        ProjElem { kind: ProjKind::Field, ty: 0 },
                    ],
                }],
            }],
            terminator: Terminator { span: at(12), kind: TerminatorKind::Other, places: vec![] },
        }],
    };
    Program {
        types: vec![rc, wrapper, named("&mut Wrapper<Rc<u8>>", TyKind::Ref), gc, named("u8", TyKind::Primitive)],
        instances: vec![
            Instance { fsa_entry_point: false, body: Some(drop_wrapper) },
            Instance { fsa_entry_point: true, body: None },
        ],
    }
}

fn constructs(value_ty: TyId, in_std: bool, instance: Option<usize>, n: u32) -> BasicBlock {
    BasicBlock {
        statements: vec![],
        terminator: Terminator {
            span: at(n),
            kind: TerminatorKind::Call {
                callee: Callee::FnDef { in_std_lib: in_std, gc_ret: Some(value_ty), instance },
                args: vec![CallArg { span: at(n + 1), param_ty: value_ty }],
                fn_span: at(n + 2),
            },
            places: vec![],
        },
    }
}

fn user_body(blocks: Vec<BasicBlock>) -> Body {
    Body { span: at(0), receiver_ty: None, in_std_lib: false, blocks }
}

const HEADLINE: &str = "The drop method for `Wrapper<Rc<u8>>` cannot be safely finalized.";
const CAUSE: &str = "caused by trying to construct a `Gc<Wrapper<Rc<u8>>>` here.";

#[test]
fn pass_reports_each_construction() {
    let prog = wrapper_program();
    assert!(prog.is_well_formed());
    let main = user_body(vec![constructs(1, true, Some(1), 100), constructs(4, true, Some(1), 200)]);
    let reports = CheckFinalizers.run_pass(&prog, &main);
    assert_eq!(reports.len(), 1);
    let report = &reports[0];
    assert_eq!(report.span, at(101));
    assert_eq!(report.message, HEADLINE);
    assert_eq!(
        labels(report),
        vec![
            (at(11), "a finalizer cannot safely use this `Rc<u8>`"),
            (at(11), "from a drop method because it does not implement `Send` + `Sync`."),
            (at(100), CAUSE),
        ]
    );
    assert_eq!(
        report.help.as_deref(),
        Some("`Gc` runs finalizers on a separate thread, so drop methods\nmust only use values which are thread-safe.")
    );
}

#[test]
fn pass_reports_in_block_order() {
    let prog = wrapper_program();
    let main = user_body(vec![constructs(1, true, Some(1), 100), constructs(1, true, Some(1), 200)]);
    let reports = CheckFinalizers.run_pass(&prog, &main);
    let spans: Vec<Span> = reports.iter().map(|r| r.span).collect();
    assert_eq!(spans, vec![at(101), at(201)]);
}

#[test]
fn pass_skips_what_is_no_construction() {
    let prog = wrapper_program();
    // A function outside the standard library.
    let main = user_body(vec![constructs(1, false, Some(1), 100)]);
    assert_eq!(CheckFinalizers.run_pass(&prog, &main).len(), 0);
    // An instance that is not marked as a constructor.
    let main = user_body(vec![constructs(1, true, Some(0), 100)]);
    assert_eq!(CheckFinalizers.run_pass(&prog, &main).len(), 0);
    // A call that does not resolve.
    let main = user_body(vec![constructs(1, true, None, 100)]);
    assert_eq!(CheckFinalizers.run_pass(&prog, &main).len(), 0);
    // A call through a pointer, and a call that returns no handle.
    let pointer = BasicBlock {
        statements: vec![],
        terminator: Terminator {
            span: at(100),
            kind: TerminatorKind::Call { callee: Callee::FnPtr, args: vec![], fn_span: at(101) },
            places: vec![],
        },
    };
    let mut no_handle = constructs(1, true, Some(1), 100);
    no_handle.terminator.kind = TerminatorKind::Call {
        callee: Callee::FnDef { in_std_lib: true, gc_ret: None, instance: Some(1) },
        args: vec![CallArg { span: at(102), param_ty: 1 }],
        fn_span: at(101),
    };
    let main = user_body(vec![pointer, no_handle]);
    assert_eq!(CheckFinalizers.run_pass(&prog, &main).len(), 0);
    // A call without arguments constructs nothing.
    let mut no_args = constructs(1, true, Some(1), 100);
    no_args.terminator.kind = TerminatorKind::Call {
        callee: Callee::FnDef { in_std_lib: true, gc_ret: Some(1), instance: Some(1) },
        args: vec![],
        fn_span: at(101),
    };
    assert_eq!(CheckFinalizers.run_pass(&prog, &user_body(vec![no_args])).len(), 0);
    assert!(CheckFinalizers::entry_point(&prog, &constructs(1, true, Some(1), 100).terminator).is_some());
}

#[test]
fn pass_leaves_the_standard_library_alone() {
    let prog = wrapper_program();
    let mut inside = user_body(vec![constructs(1, true, Some(1), 100)]);
    inside.in_std_lib = true;
    assert_eq!(CheckFinalizers.run_pass(&prog, &inside).len(), 0);
}

fn render(error: FinalizerErrorKind) -> Diagnostic {
    let prog = wrapper_program();
    FSAEntryPointCtxt::new(at(100), at(101), 1, &prog).emit_error(error)
}

fn fi(n: u32) -> FnInfo {
    FnInfo { span: at(n), drop_ty: 1 }
}

#[test]
fn report_for_a_value_that_is_not_finalizer_safe() {
    let d = render(FinalizerErrorKind::NotFinalizerSafe(fi(10), ProjInfo { span: at(11), ty: 0 }));
    assert_eq!(d.span, at(101));
    assert_eq!(d.message, HEADLINE);
    assert_eq!(
        labels(&d),
        vec![
            (at(11), "a finalizer cannot safely use this `Rc<u8>`"),
            (at(11), "from a drop method because it does not implement `FinalizerSafe`."),
            (at(100), CAUSE),
        ]
    );
    assert_eq!(
        d.help.as_deref(),
        Some("`Gc` runs finalizers on a separate thread, so drop methods\nmust only use values whose types implement `FinalizerSafe`.")
    );
}

#[test]
fn report_for_a_handle_used_in_a_finalizer() {
    let d = render(FinalizerErrorKind::NotFinalizerSafe(fi(10), ProjInfo { span: at(11), ty: 3 }));
    assert_eq!(d.message, HEADLINE);
    assert_eq!(
        labels(&d),
        vec![
            (at(11), "a finalizer cannot safely dereference this `Gc<u8>`"),
            (at(11), "from a drop method because it might have already been finalized."),
            (at(100), CAUSE),
        ]
    );
    assert_eq!(d.help, None);
}

#[test]
fn report_for_a_reference() {
    let d = render(FinalizerErrorKind::UnsoundReference(fi(10), ProjInfo { span: at(11), ty: 2 }));
    assert_eq!(d.message, HEADLINE);
    assert_eq!(
        labels(&d),
        vec![
            (at(11), "a finalizer cannot safely dereference this `&mut Wrapper<Rc<u8>>`"),
            (at(11), "because it might not live long enough."),
            (at(100), CAUSE),
        ]
    );
    assert_eq!(
        d.help.as_deref(),
        Some("`Gc` may run finalizers after the valid lifetime of this reference.")
    );
}

#[test]
fn reports_without_a_projection() {
    let d = render(FinalizerErrorKind::MissingFnDef(fi(20)));
    assert_eq!(d.message, HEADLINE);
    assert_eq!(
        labels(&d),
        vec![(at(20), "this function call may be unsafe to use in a finalizer."), (at(100), CAUSE)]
    );
    assert_eq!(d.help, None);

    let d = render(FinalizerErrorKind::UnknownTraitObject(fi(20)));
    assert_eq!(
        labels(&d),
        vec![(at(101), "contains a trait object whose implementation is unknown."), (at(100), CAUSE)]
    );
    assert_eq!(d.help, None);

    let d = render(FinalizerErrorKind::UnsoundExternalDropGlue(FnInfo { span: at(20), drop_ty: 0 }));
    assert_eq!(d.message, "The drop method for `Rc<u8>` cannot be safely finalized.");
    assert_eq!(
        labels(&d),
        vec![(at(20), "this `Rc<u8>` is not safe to be run as a finalizer"), (at(100), CAUSE)]
    );
    assert_eq!(d.help, None);

    let d = render(FinalizerErrorKind::InlineAsm(fi(20)));
    assert_eq!(
        labels(&d),
        vec![(at(20), "this assembly block is not safe to run in a finalizer"), (at(100), CAUSE)]
    );
    assert_eq!(d.help, None);
}

#[test]
fn around_quotes_in_the_middle() {
    assert_eq!(around("<", &"x".to_string(), ">"), "<x>");
    assert_eq!(around("", &String::new(), ""), "");
}

#[test]
fn standard_library_is_three_crates() {
    assert!(in_std_lib(1, Some(1), Some(2), Some(3)));
    assert!(in_std_lib(2, Some(1), Some(2), Some(3)));
    assert!(in_std_lib(3, Some(1), Some(2), Some(3)));
    assert!(!in_std_lib(4, Some(1), Some(2), Some(3)));
    assert!(!in_std_lib(0, None, None, None));
    assert!(in_std_lib(0, None, None, Some(0)));
}

#[test]
fn receiver_type_is_recognised_among_the_parameters() {
    let arg = |param_ty: TyId| CallArg { span: at(0), param_ty };
    assert!(passes_receiver(&vec![arg(1), arg(2)], Some(2)));
    assert!(passes_receiver(&vec![arg(2)], Some(2)));
    assert!(!passes_receiver(&vec![arg(1), arg(3)], Some(2)));
    assert!(!passes_receiver(&vec![arg(2)], None));
    assert!(!passes_receiver(&vec![], Some(2)));
}

fn drops(ty: TyId, target: usize, n: u32) -> BasicBlock {
    BasicBlock {
        statements: vec![Statement { span: at(n), places: vec![] }],
        terminator: Terminator {
            span: at(n + 1),
            kind: TerminatorKind::Drop { ty, target },
            places: vec![Place { local_ty: ty, projection: vec![] }],
        },
    }
}

fn kinds(body: &Body) -> Vec<String> {
    body.blocks.iter().map(|b| format!("{:?}", b.terminator.kind)).collect()
}

#[test]
fn needless_drops_of_handles_become_jumps() {
    // 5: Gc<Wrapper<Rc<u8>>>, whose value needs a finalizer.
    let mut prog = wrapper_program();
    let mut gc = named("Gc<Wrapper<Rc<u8>>>", plain_adt(vec![], None));
    gc.gc_pointee = Some(1);
    prog.types.push(gc);
    assert!(prog.is_well_formed());
    let mut body = user_body(vec![drops(3, 1, 10), drops(5, 2, 20), drops(1, 3, 30), drops(3, 7, 40)]);
    let changed = RemoveElidableDrops.run_pass(&prog, &mut body, false, true);
    assert!(changed);
    assert_eq!(
        kinds(&body),
        vec![
            "Goto { target: 1 }",
            "Drop { ty: 5, target: 2 }",
            "Drop { ty: 1, target: 3 }",
            "Goto { target: 7 }",
        ]
    );
    // The rest of each block stays.
    assert_eq!(body.blocks.len(), 4);
    assert_eq!(body.blocks[0].statements.len(), 1);
    assert_eq!(body.blocks[0].statements[0].span, at(10));
    assert_eq!(body.blocks[0].terminator.span, at(11));
    assert_eq!(body.blocks[0].terminator.places.len(), 1);

    // A second run finds nothing left to do.
    assert!(!RemoveElidableDrops.run_pass(&prog, &mut body, false, true));
}

#[test]
fn collector_crate_drops_every_handle_barrier() {
    let mut prog = wrapper_program();
    let mut gc = named("Gc<Wrapper<Rc<u8>>>", plain_adt(vec![], None));
    gc.gc_pointee = Some(1);
    prog.types.push(gc);
    let mut body = user_body(vec![drops(5, 2, 20), drops(1, 3, 30)]);
    assert!(RemoveElidableDrops.run_pass(&prog, &mut body, true, true));
    assert_eq!(kinds(&body), vec!["Goto { target: 2 }", "Drop { ty: 1, target: 3 }"]);
}

#[test]
fn switched_off_pass_changes_nothing() {
    let prog = wrapper_program();
    let mut body = user_body(vec![drops(3, 1, 10)]);
    assert!(!RemoveElidableDrops.run_pass(&prog, &mut body, true, false));
    assert_eq!(kinds(&body), vec!["Drop { ty: 3, target: 1 }"]);
    // Nothing to elide: nothing changed.
    let mut body = user_body(vec![drops(1, 1, 10)]);
    assert!(!RemoveElidableDrops.run_pass(&prog, &mut body, false, true));
}
