//! The removal of drops of handles that have nothing to do.
use vstd::prelude::*;
use crate::mir::{Body, TerminatorKind};
use crate::program::{body_wf, Program};
use crate::ty::TyKind;

verus! {

/// The pass that turns needless drops of handles into plain jumps.
///
/// The drop of a handle is only a barrier that keeps the finalizer from
/// running too early. Where the value behind the handle has no finalizer
/// there is nothing to keep back.
pub struct RemoveElidableDrops;

impl Program {
    /// Whether the terminator is the drop of a handle that can go: any such
    /// drop inside the collector's own crate, else one whose value needs no
    /// finalizer.
    pub open spec fn elidable(&self, kind: &TerminatorKind, is_gc_crate: bool) -> bool {
        match kind {
            TerminatorKind::Drop { ty, .. } => {
                let info = self.types@[*ty as int];
                match info.gc_pointee {
                    Some(pointee) => info.kind is Adt && (is_gc_crate
                        || !self.types@[pointee as int].needs_finalizer),
                    None => false,
                }
            },
            _ => false,
        }
    }

    /// What the pass turns the terminator into.
    pub open spec fn elided(&self, kind: TerminatorKind, is_gc_crate: bool) -> TerminatorKind {
        match kind {
            TerminatorKind::Drop { target, .. } if self.elidable(&kind, is_gc_crate) => {
                TerminatorKind::Goto { target }
            },
            _ => kind,
        }
    }
}

impl RemoveElidableDrops {
    /// Rewrites every elidable drop of the body into a jump to the drop's
    /// target and leaves everything else as it is. Returns whether anything
    /// was rewritten, so that the caller knows to tidy the graph. With the
    /// optimisation switched off nothing is rewritten.
    pub fn run_pass(
        &self,
        prog: &Program,
        body: &mut Body,
        is_gc_crate: bool,
        enabled: bool,
    ) -> (changed: bool)
        requires
            prog.wf(),
            body_wf(old(body), prog.types@.len() as int, prog.instances@.len() as int),
        ensures
            final(body).span == old(body).span,
            final(body).receiver_ty == old(body).receiver_ty,
            final(body).in_std_lib == old(body).in_std_lib,
            final(body).blocks@.len() == old(body).blocks@.len(),
            forall|b: int|
                0 <= b < old(body).blocks@.len() ==> {
                    let before = #[trigger] old(body).blocks@[b];
                    let after = final(body).blocks@[b];
                    &&& after.statements == before.statements
                    &&& after.terminator.span == before.terminator.span
                    &&& after.terminator.places == before.terminator.places
                    &&& after.terminator.kind == if enabled {
                        prog.elided(before.terminator.kind, is_gc_crate)
                    } else {
                        before.terminator.kind
                    }
                },
            changed == (enabled && exists|b: int|
                0 <= b < old(body).blocks@.len() && prog.elidable(
                    &(#[trigger] old(body).blocks@[b]).terminator.kind,
                    is_gc_crate,
                )),
    {
        if !enabled {
            return false;
        }
        let mut should_simplify = false;
        let mut b: usize = 0;
        while b < body.blocks.len()
            invariant
                b <= body.blocks@.len(),
                prog.wf(),
                body.span == old(body).span,
                body.receiver_ty == old(body).receiver_ty,
                body.in_std_lib == old(body).in_std_lib,
                body.blocks@.len() == old(body).blocks@.len(),
                body_wf(old(body), prog.types@.len() as int, prog.instances@.len() as int),
                forall|j: int|
                    b <= j < body.blocks@.len() ==> body.blocks@[j] == old(body).blocks@[j],
                forall|j: int|
                    0 <= j < b ==> {
                        let before = #[trigger] old(body).blocks@[j];
                        let after = body.blocks@[j];
                        &&& after.statements == before.statements
                        &&& after.terminator.span == before.terminator.span
                        &&& after.terminator.places == before.terminator.places
                        &&& after.terminator.kind == prog.elided(
                            before.terminator.kind,
                            is_gc_crate,
                        )
                    },
                should_simplify == (exists|j: int|
                    0 <= j < b && prog.elidable(
                        &(#[trigger] old(body).blocks@[j]).terminator.kind,
                        is_gc_crate,
                    )),
            decreases body.blocks@.len() - b,
        {
            assert(crate::program::block_wf(
                &old(body).blocks@[b as int],
                prog.types@.len() as int,
                prog.instances@.len() as int,
            ));
            let goto = match &body.blocks[b].terminator.kind {
                TerminatorKind::Drop { ty, target } => {
                    let info = &prog.types[*ty];
                    assert(prog.ty_wf(*ty as int));
                    match info.gc_pointee {
                        Some(pointee) => {
                            if matches!(info.kind, TyKind::Adt(_)) && (is_gc_crate
                                || !prog.types[pointee].needs_finalizer) {
                                Some(*target)
                            } else {
                                None
                            }
                        },
                        None => None,
                    }
                },
                _ => None,
            };
            if let Some(target) = goto {
                body.blocks[b].terminator.kind = TerminatorKind::Goto { target };
                should_simplify = true;
            }
            b += 1;
        }
        should_simplify
    }
}

} // verus!
