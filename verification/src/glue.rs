//! What the analysis reports for a destructor and everything it calls, and
//! for a type and everything its drop glue runs.
use vstd::prelude::*;
use crate::findings::{FinalizerErrorKind, FnInfo};
use crate::program::{body_wf, Program};
use crate::mir::Body;
use crate::ty::{InstanceId, Span, TyId, TyKind};

verus! {

/// How many instances have not been visited.
pub open spec fn unvisited(visited: Seq<bool>) -> nat
    decreases visited.len(),
{
    if visited.len() == 0 {
        0
    } else {
        unvisited(visited.drop_last()) + if visited.last() {
            0nat
        } else {
            1nat
        }
    }
}

/// Visiting one more instance leaves fewer to visit.
pub proof fn lemma_visit_decreases(visited: Seq<bool>, i: int)
    requires
        0 <= i < visited.len(),
        !visited[i],
    ensures
        unvisited(visited.update(i, true)) + 1 == unvisited(visited),
    decreases visited.len(),
{
    let after = visited.update(i, true);
    if i == visited.len() - 1 {
        assert(after.drop_last() =~= visited.drop_last());
    } else {
        lemma_visit_decreases(visited.drop_last(), i);
        assert(after.drop_last() =~= visited.drop_last().update(i, true));
    }
}

impl Program {
    /// Every instance in the queue exists and has a body, and `visited` has
    /// an entry for each instance.
    pub open spec fn worklist_wf(&self, queue: Seq<InstanceId>, visited: Seq<bool>) -> bool {
        &&& visited.len() == self.instances@.len()
        &&& self.callsites_wf(queue)
    }

    pub open spec fn callsites_wf(&self, queue: Seq<InstanceId>) -> bool {
        forall|i: int|
            0 <= i < queue.len() ==> (#[trigger] queue[i]) < self.instances@.len()
                && self.mir_available(queue[i])
    }

    /// No instance has been visited.
    pub open spec fn none_visited(&self) -> Seq<bool> {
        Seq::new(self.instances@.len(), |i: int| false)
    }

    /// The findings of the worklist run from the given state: the instance at
    /// the front of the queue is skipped if it was visited; otherwise it is
    /// marked, its body's findings come next, and the instances it calls join
    /// the back of the queue.
    pub open spec fn worklist_findings(
        &self,
        drop_ty: TyId,
        queue: Seq<InstanceId>,
        visited: Seq<bool>,
    ) -> Seq<FinalizerErrorKind>
        decreases unvisited(visited), queue.len(),
        when self.worklist_wf(queue, visited)
    {
        if queue.len() == 0 {
            Seq::empty()
        } else {
            let instance = queue[0];
            let rest = queue.subrange(1, queue.len() as int);
            if visited[instance as int] {
                self.worklist_findings(drop_ty, rest, visited)
            } else {
                let body = self.instances@[instance as int].body->Some_0;
                proof {
                    lemma_visit_decreases(visited, instance as int);
                }
                self.body_findings(&body, drop_ty) + self.worklist_findings(
                    drop_ty,
                    rest + self.body_calls(&body),
                    visited.update(instance as int, true),
                )
            }
        }
    }

    /// The instances whose bodies the worklist run analyses, in order.
    pub open spec fn worklist_order(&self, queue: Seq<InstanceId>, visited: Seq<bool>) -> Seq<
        InstanceId,
    >
        decreases unvisited(visited), queue.len(),
        when self.worklist_wf(queue, visited)
    {
        if queue.len() == 0 {
            Seq::empty()
        } else {
            let instance = queue[0];
            let rest = queue.subrange(1, queue.len() as int);
            if visited[instance as int] {
                self.worklist_order(rest, visited)
            } else {
                let body = self.instances@[instance as int].body->Some_0;
                proof {
                    lemma_visit_decreases(visited, instance as int);
                }
                seq![instance] + self.worklist_order(
                    rest + self.body_calls(&body),
                    visited.update(instance as int, true),
                )
            }
        }
    }

    /// Everything reported for the destructor `dtor` of `drop_ty` and for the
    /// functions that it calls, directly or not.
    pub open spec fn destructor_findings(&self, drop_ty: TyId, dtor: InstanceId) -> Seq<
        FinalizerErrorKind,
    > {
        self.worklist_findings(drop_ty, seq![dtor], self.none_visited())
    }

    /// What the destructor of the type at `t` itself is reported for: nothing
    /// where the type has none.
    pub open spec fn dtor_findings(&self, t: TyId) -> Seq<FinalizerErrorKind> {
        match self.types@[t as int].kind.dtor() {
            Some(d) => self.destructor_findings(t, d),
            None => Seq::empty(),
        }
    }

    /// Whether the findings of the type's destructor are folded into one,
    /// and its fields left alone: so it is for a type of the standard library
    /// whose destructor has findings, which its user could not mend.
    pub open spec fn collapsed(&self, t: TyId) -> bool {
        match self.types@[t as int].kind {
            TyKind::Adt(def) => def.in_std_lib && self.dtor_findings(t).len() > 0,
            _ => false,
        }
    }

    /// The findings made when the walk over the drop glue arrives at `t`,
    /// before it goes on to the components of `t`.
    pub open spec fn own_findings(&self, t: TyId) -> Seq<FinalizerErrorKind> {
        let info = self.types@[t as int];
        let fn_info = FnInfo { span: Span::dummy(), drop_ty: t };
        match info.kind {
            TyKind::Dynamic => seq![FinalizerErrorKind::UnknownTraitObject(fn_info)],
            TyKind::Adt(def) if !info.is_copy => {
                let boxed = if def.is_box {
                    seq![FinalizerErrorKind::MissingFnDef(fn_info)]
                } else {
                    Seq::empty()
                };
                if self.collapsed(t) {
                    boxed + seq![FinalizerErrorKind::UnsoundExternalDropGlue(fn_info)]
                } else {
                    boxed + self.dtor_findings(t)
                }
            },
            _ => Seq::empty(),
        }
    }

    /// The components of `t` that the walk goes on to: all of them, except
    /// that a copyable type and a collapsed one have none to offer.
    pub open spec fn pending(&self, t: TyId) -> Seq<TyId> {
        let info = self.types@[t as int];
        match info.kind {
            TyKind::Adt(def) => if info.is_copy || self.collapsed(t) {
                Seq::empty()
            } else {
                def.fields@
            },
            _ => info.kind.components(),
        }
    }

    /// The findings of the walk over the drop glue of `t`: those of `t`
    /// itself, then those of its pending components, last component first.
    pub open spec fn glue_findings(&self, t: TyId) -> Seq<FinalizerErrorKind>
        decreases t, 1int, 0int,
    {
        self.own_findings(t) + self.stack_findings(self.pending(t), t as int)
    }

    /// The findings of the walk from a stack of types known to lie below
    /// `bound`: the top of the stack is its last entry.
    pub open spec fn stack_findings(&self, stack: Seq<TyId>, bound: int) -> Seq<
        FinalizerErrorKind,
    >
        decreases bound, 0int, stack.len(),
    {
        if stack.len() == 0 {
            Seq::empty()
        } else if stack.last() < bound {
            self.glue_findings(stack.last()) + self.stack_findings(stack.drop_last(), bound)
        } else {
            self.stack_findings(stack.drop_last(), bound)
        }
    }

    /// What constructing a handle around a value of type `root` is reported
    /// for. Nothing where the value needs no finalizer or is marked as
    /// unchecked; nothing where its type is thread-safe and finalizer-safe as
    /// a whole; else the findings of its drop glue.
    pub open spec fn drop_glue_findings(&self, root: TyId) -> Seq<FinalizerErrorKind> {
        let info = self.types@[root as int];
        if !info.needs_finalizer || info.is_finalize_unchecked {
            Seq::empty()
        } else if info.is_send && info.is_sync && info.is_finalizer_safe {
            Seq::empty()
        } else {
            self.glue_findings(root)
        }
    }

    /// The number of types that the walk from `t` can visit at most.
    pub open spec fn glue_weight(&self, t: TyId) -> nat
        decreases t, 1int, 0int,
    {
        1 + self.stack_weight(self.types@[t as int].kind.components(), t as int)
    }

    pub open spec fn stack_weight(&self, stack: Seq<TyId>, bound: int) -> nat
        decreases bound, 0int, stack.len(),
    {
        if stack.len() == 0 {
            0
        } else if stack.last() < bound {
            self.glue_weight(stack.last()) + self.stack_weight(stack.drop_last(), bound)
        } else {
            self.stack_weight(stack.drop_last(), bound)
        }
    }

    /// The components that the walk goes on to lie below the type itself.
    pub proof fn lemma_pending_below(&self, t: TyId)
        requires
            self.wf(),
            t < self.types@.len(),
        ensures
            forall|i: int| 0 <= i < self.pending(t).len() ==> (#[trigger] self.pending(t)[i]) < t,
            self.pending(t).len() == 0 || self.pending(t)
                == self.types@[t as int].kind.components(),
    {
        assert(self.ty_wf(t as int));
    }

    /// A larger bound changes nothing for a stack that lies below the smaller.
    pub proof fn lemma_stack_bound(&self, stack: Seq<TyId>, low: int, high: int)
        requires
            low <= high,
            forall|i: int| 0 <= i < stack.len() ==> (#[trigger] stack[i]) < low,
        ensures
            self.stack_findings(stack, low) == self.stack_findings(stack, high),
            self.stack_weight(stack, low) == self.stack_weight(stack, high),
        decreases stack.len(),
    {
        if stack.len() > 0 {
            self.lemma_stack_bound(stack.drop_last(), low, high);
        }
    }

    /// The walk from a stack deals with what lies on top before it turns to
    /// what lies below.
    pub proof fn lemma_stack_concat(&self, below: Seq<TyId>, top: Seq<TyId>, bound: int)
        ensures
            self.stack_findings(below + top, bound) == self.stack_findings(top, bound)
                + self.stack_findings(below, bound),
            self.stack_weight(below + top, bound) == self.stack_weight(top, bound)
                + self.stack_weight(below, bound),
        decreases top.len(),
    {
        if top.len() == 0 {
            assert(below + top =~= below);
        } else {
            assert((below + top).drop_last() =~= below + top.drop_last());
            assert((below + top).last() == top.last());
            self.lemma_stack_concat(below, top.drop_last(), bound);
            assert(self.stack_findings(below + top, bound) =~= self.stack_findings(top, bound)
                + self.stack_findings(below, bound));
        }
    }

    /// One step of the walk: taking `t` off the stack and putting its pending
    /// components on leaves the findings of `t` itself and those of the new
    /// stack, and leaves less to visit.
    pub proof fn lemma_walk_step(&self, below: Seq<TyId>, t: TyId)
        requires
            self.wf(),
            t < self.types@.len(),
            forall|i: int| 0 <= i < below.len() ==> (#[trigger] below[i]) < self.types@.len(),
        ensures
            self.stack_findings(below.push(t), self.types@.len() as int) == self.own_findings(t)
                + self.stack_findings(below + self.pending(t), self.types@.len() as int),
            self.stack_weight(below.push(t), self.types@.len() as int) > self.stack_weight(
                below + self.pending(t),
                self.types@.len() as int,
            ),
            self.stack_weight(below.push(t), self.types@.len() as int) > self.stack_weight(
                below,
                self.types@.len() as int,
            ),
    {
        let n = self.types@.len() as int;
        let pending = self.pending(t);
        let components = self.types@[t as int].kind.components();
        assert(below.push(t).drop_last() =~= below);
        self.lemma_pending_below(t);
        assert(self.ty_wf(t as int));
        self.lemma_stack_bound(pending, t as int, n);
        self.lemma_stack_bound(components, t as int, n);
        self.lemma_stack_concat(below, pending, n);
        let stack = below.push(t);
        assert(stack.last() == t);
        assert(self.stack_findings(stack, n) == self.glue_findings(t) + self.stack_findings(
            below,
            n,
        ));
        assert(self.glue_findings(t) == self.own_findings(t) + self.stack_findings(
            pending,
            t as int,
        ));
        assert(self.stack_findings(stack, n) =~= self.own_findings(t) + (self.stack_findings(
            pending,
            n,
        ) + self.stack_findings(below, n)));
        assert(self.stack_weight(stack, n) == self.glue_weight(t) + self.stack_weight(below, n));
        assert(self.glue_weight(t) == 1 + self.stack_weight(components, t as int));
        assert(self.stack_weight(Seq::<TyId>::empty(), n) == 0);
    }

    /// The instances that a well-formed body adds to the worklist exist and
    /// have bodies.
    pub proof fn lemma_blocks_calls_wf(&self, body: &Body, upto: int)
        requires
            self.wf(),
            body_wf(body, self.types@.len() as int, self.instances@.len() as int),
            0 <= upto <= body.blocks@.len(),
        ensures
            self.callsites_wf(self.blocks_calls(body, upto)),
        decreases upto,
    {
        if upto > 0 {
            self.lemma_blocks_calls_wf(body, upto - 1);
            let block = body.blocks@[upto - 1];
            assert(crate::program::block_wf(
                &block,
                self.types@.len() as int,
                self.instances@.len() as int,
            ));
            match block.terminator.kind {
                crate::mir::TerminatorKind::Drop { ty, .. } => {
                    assert(self.ty_wf(ty as int));
                },
                _ => {},
            }
        }
    }
}

} // verus!
