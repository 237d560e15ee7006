//! What holds of the analysis on every program.
use vstd::prelude::*;
use crate::findings::{FinalizerErrorKind, FnInfo};
use crate::glue::{lemma_visit_decreases, unvisited};
use crate::mir::{Body, Place};
use crate::program::Program;
use crate::ty::{InstanceId, Span, TyId, TyKind};

verus! {

impl Program {
    /// Whether the walk over the drop glue of `t` arrives at `c`: `c` is `t`
    /// itself or is reached from a pending component of `t`.
    pub open spec fn component_of(&self, c: TyId, t: TyId) -> bool
        decreases t,
    {
        c == t || exists|i: int|
            0 <= i < self.pending(t).len() && (#[trigger] self.pending(t)[i]) < t
                && self.component_of(c, self.pending(t)[i])
    }

    /// Whether dropping a value of the type at `t` runs code of the type
    /// itself: a trait object, an owning pointer, or a type that is not
    /// copyable and has a destructor.
    pub open spec fn has_destructor(&self, t: TyId) -> bool {
        let info = self.types@[t as int];
        match info.kind {
            TyKind::Dynamic => true,
            TyKind::Adt(def) => !info.is_copy && (def.is_box || def.dtor.is_some()),
            _ => false,
        }
    }

    /// The findings of the bodies of the given instances, one after another.
    pub open spec fn bodies_findings(&self, drop_ty: TyId, order: Seq<InstanceId>) -> Seq<
        FinalizerErrorKind,
    >
        decreases order.len(),
    {
        if order.len() == 0 {
            Seq::empty()
        } else {
            self.body_findings(&self.instances@[order[0] as int].body->Some_0, drop_ty)
                + self.bodies_findings(drop_ty, order.subrange(1, order.len() as int))
        }
    }

    /// The number of statements and terminators in the first `upto` blocks.
    pub open spec fn positions(body: &Body, upto: int) -> nat
        decreases upto,
    {
        if upto <= 0 {
            0
        } else {
            Self::positions(body, upto - 1) + body.blocks@[upto - 1].statements@.len() + 1
        }
    }

    /// A value that needs no finalizer is accepted.
    pub proof fn lemma_no_finalizer_accepted(&self, root: TyId)
        requires
            !self.types@[root as int].needs_finalizer,
        ensures
            self.drop_glue_findings(root) == Seq::<FinalizerErrorKind>::empty(),
    {
    }

    /// A value marked as unchecked is accepted.
    pub proof fn lemma_unchecked_accepted(&self, root: TyId)
        requires
            self.types@[root as int].is_finalize_unchecked,
        ensures
            self.drop_glue_findings(root) == Seq::<FinalizerErrorKind>::empty(),
    {
    }

    /// A value whose type can move between threads, can be shared between
    /// them and is safe in a finalizer is accepted, whatever it is made of.
    pub proof fn lemma_capable_accepted(&self, root: TyId)
        requires
            self.types@[root as int].is_send,
            self.types@[root as int].is_sync,
            self.types@[root as int].is_finalizer_safe,
        ensures
            self.drop_glue_findings(root) == Seq::<FinalizerErrorKind>::empty(),
    {
    }

    /// Findings of a type on a stack are findings of the stack.
    pub proof fn lemma_stack_holds(&self, stack: Seq<TyId>, bound: int, i: int)
        requires
            0 <= i < stack.len(),
            stack[i] < bound,
        ensures
            self.stack_findings(stack, bound).len() >= self.glue_findings(stack[i]).len(),
        decreases stack.len(),
    {
        if i < stack.len() - 1 {
            self.lemma_stack_holds(stack.drop_last(), bound, i);
        }
    }

    /// A stack of types without findings has none.
    pub proof fn lemma_stack_quiet(&self, stack: Seq<TyId>, bound: int)
        requires
            forall|i: int|
                0 <= i < stack.len() && stack[i] < bound ==> (#[trigger] self.glue_findings(
                    stack[i],
                )).len() == 0,
        ensures
            self.stack_findings(stack, bound).len() == 0,
        decreases stack.len(),
    {
        if stack.len() > 0 {
            let below = stack.drop_last();
            assert forall|i: int| 0 <= i < below.len() && below[i] < bound implies (
            #[trigger] self.glue_findings(below[i])).len() == 0 by {
                assert(below[i] == stack[i]);
            }
            self.lemma_stack_quiet(below, bound);
            if stack.last() < bound {
                assert(self.glue_findings(stack[stack.len() - 1]).len() == 0);
            }
        }
    }

    /// The walk over the drop glue of a type without any destructor in it
    /// finds nothing: such a value is accepted on every path.
    pub proof fn lemma_no_destructor_no_findings(&self, root: TyId)
        requires
            self.wf(),
            root < self.types@.len(),
            forall|c: TyId| self.component_of(c, root) ==> !self.has_destructor(c),
        ensures
            self.glue_findings(root).len() == 0,
            self.drop_glue_findings(root).len() == 0,
        decreases root,
    {
        assert(self.component_of(root, root));
        assert(!self.has_destructor(root));
        assert(self.own_findings(root).len() == 0);
        let pending = self.pending(root);
        self.lemma_pending_below(root);
        assert forall|i: int| 0 <= i < pending.len() && pending[i] < root implies (
        #[trigger] self.glue_findings(pending[i])).len() == 0 by {
            assert forall|c: TyId| self.component_of(c, pending[i]) implies !self.has_destructor(
                c,
            ) by {
                assert(self.component_of(c, root));
            }
            self.lemma_no_destructor_no_findings(pending[i]);
        }
        self.lemma_stack_quiet(pending, root as int);
    }

    /// The walk over the drop glue of a type that holds a trait object always
    /// has a finding, whatever may implement the trait.
    pub proof fn lemma_trait_object_found(&self, root: TyId, object: TyId)
        requires
            self.wf(),
            root < self.types@.len(),
            self.component_of(object, root),
            self.types@[object as int].kind is Dynamic,
        ensures
            self.glue_findings(root).len() > 0,
        decreases root,
    {
        if object != root {
            let i = choose|i: int|
                0 <= i < self.pending(root).len() && (#[trigger] self.pending(root)[i]) < root
                    && self.component_of(object, self.pending(root)[i]);
            self.lemma_trait_object_found(self.pending(root)[i], object);
            self.lemma_stack_holds(self.pending(root), root as int, i);
        }
    }

    /// A value that holds a trait object is rejected, unless it is accepted
    /// without a look at what it is made of.
    pub proof fn lemma_trait_object_rejected(&self, root: TyId, object: TyId)
        requires
            self.wf(),
            root < self.types@.len(),
            self.component_of(object, root),
            self.types@[object as int].kind is Dynamic,
            self.types@[root as int].needs_finalizer,
            !self.types@[root as int].is_finalize_unchecked,
            !(self.types@[root as int].is_send && self.types@[root as int].is_sync
                && self.types@[root as int].is_finalizer_safe),
        ensures
            self.drop_glue_findings(root).len() > 0,
    {
        self.lemma_trait_object_found(root, object);
    }

    /// Two runs of the analysis on one type of one program report the same.
    pub proof fn lemma_deterministic(
        &self,
        root: TyId,
        first: Seq<FinalizerErrorKind>,
        second: Seq<FinalizerErrorKind>,
    )
        requires
            first == self.drop_glue_findings(root),
            second == self.drop_glue_findings(root),
        ensures
            first == second,
    {
    }

    /// However the functions that a destructor reaches call each other, the
    /// worklist run analyses no instance twice, analyses none that was
    /// visited before, and so analyses no more than were left to visit.
    pub proof fn lemma_each_instance_once(&self, queue: Seq<InstanceId>, visited: Seq<bool>)
        requires
            self.wf(),
            self.worklist_wf(queue, visited),
        ensures
            self.worklist_order(queue, visited).no_duplicates(),
            forall|j: int|
                0 <= j < self.worklist_order(queue, visited).len() ==> {
                    let i = #[trigger] self.worklist_order(queue, visited)[j];
                    i < self.instances@.len() && !visited[i as int] && self.mir_available(i)
                },
            self.worklist_order(queue, visited).len() <= unvisited(visited),
        decreases unvisited(visited), queue.len(),
    {
        if queue.len() > 0 {
            let instance = queue[0];
            let rest = queue.subrange(1, queue.len() as int);
            assert forall|i: int| 0 <= i < rest.len() implies (#[trigger] rest[i])
                < self.instances@.len() && self.mir_available(rest[i]) by {
                assert(rest[i] == queue[i + 1]);
            }
            if visited[instance as int] {
                self.lemma_each_instance_once(rest, visited);
            } else {
                let body = self.instances@[instance as int].body->Some_0;
                let marked = visited.update(instance as int, true);
                lemma_visit_decreases(visited, instance as int);
                assert(self.instance_wf(instance as int));
                self.lemma_blocks_calls_wf(&body, body.blocks@.len() as int);
                self.lemma_each_instance_once(rest + self.body_calls(&body), marked);
            }
        }
    }

    /// The instances that the body of `instance` adds to the worklist.
    pub open spec fn callees(&self, instance: InstanceId) -> Seq<InstanceId> {
        self.body_calls(&self.instances@[instance as int].body->Some_0)
    }

    /// Whether the instance is analysed in the worklist run from the given
    /// state, or was visited before it.
    pub open spec fn covered(
        &self,
        queue: Seq<InstanceId>,
        visited: Seq<bool>,
        instance: InstanceId,
    ) -> bool {
        visited[instance as int] || self.worklist_order(queue, visited).contains(instance)
    }

    /// The worklist run leaves nothing out: every queued instance is covered,
    /// and so is every instance that an analysed body calls. So whatever a
    /// destructor reaches through calls and drops with bodies is analysed.
    pub proof fn lemma_worklist_closed(&self, queue: Seq<InstanceId>, visited: Seq<bool>)
        requires
            self.wf(),
            self.worklist_wf(queue, visited),
        ensures
            forall|k: int|
                0 <= k < queue.len() ==> self.covered(queue, visited, #[trigger] queue[k]),
            forall|j: int, k: int|
                0 <= j < self.worklist_order(queue, visited).len() && 0 <= k < self.callees(
                    self.worklist_order(queue, visited)[j],
                ).len() ==> self.covered(
                    queue,
                    visited,
                    #[trigger] self.callees(self.worklist_order(queue, visited)[j])[k],
                ),
        decreases unvisited(visited), queue.len(),
    {
        let order = self.worklist_order(queue, visited);
        if queue.len() > 0 {
            let instance = queue[0];
            let rest = queue.subrange(1, queue.len() as int);
            assert forall|i: int| 0 <= i < rest.len() implies (#[trigger] rest[i])
                < self.instances@.len() && self.mir_available(rest[i]) by {
                assert(rest[i] == queue[i + 1]);
            }
            if visited[instance as int] {
                self.lemma_worklist_closed(rest, visited);
                assert(order == self.worklist_order(rest, visited));
                assert forall|k: int| 0 <= k < queue.len() implies self.covered(
                    queue,
                    visited,
                    #[trigger] queue[k],
                ) by {
                    if k > 0 {
                        assert(queue[k] == rest[k - 1]);
                        assert(self.covered(rest, visited, rest[k - 1]));
                    }
                }
                assert forall|j: int, k: int|
                    0 <= j < order.len() && 0 <= k < self.callees(
                        order[j],
                    ).len() implies self.covered(
                    queue,
                    visited,
                    #[trigger] self.callees(order[j])[k],
                ) by {
                    assert(self.covered(rest, visited, self.callees(order[j])[k]));
                }
            } else {
                let body = self.instances@[instance as int].body->Some_0;
                let calls = self.callees(instance);
                let marked = visited.update(instance as int, true);
                let next = rest + calls;
                lemma_visit_decreases(visited, instance as int);
                assert(self.instance_wf(instance as int));
                self.lemma_blocks_calls_wf(&body, body.blocks@.len() as int);
                assert(self.worklist_wf(next, marked));
                let later = self.worklist_order(next, marked);
                self.lemma_worklist_closed(next, marked);
                assert(order == seq![instance] + later);
                assert(order[0] == instance);
                assert forall|c: InstanceId|
                    c < self.instances@.len() && self.covered(
                        next,
                        marked,
                        c,
                    ) implies self.covered(queue, visited, c) by {
                    if c != instance && !visited[c as int] {
                        assert(later.contains(c));
                        let at = choose|at: int| 0 <= at < later.len() && later[at] == c;
                        assert(order[at + 1] == c);
                    }
                }
                assert forall|k: int| 0 <= k < queue.len() implies self.covered(
                    queue,
                    visited,
                    #[trigger] queue[k],
                ) by {
                    if k > 0 {
                        assert(queue[k] == next[k - 1]);
                        assert(self.covered(next, marked, next[k - 1]));
                    }
                }
                assert forall|j: int, k: int|
                    0 <= j < order.len() && 0 <= k < self.callees(
                        order[j],
                    ).len() implies self.covered(
                    queue,
                    visited,
                    #[trigger] self.callees(order[j])[k],
                ) by {
                    let c = self.callees(order[j])[k];
                    if j == 0 {
                        assert(c == next[rest.len() + k]);
                        assert(self.covered(next, marked, next[rest.len() + k]));
                    } else {
                        assert(order[j] == later[j - 1]);
                        assert(self.covered(next, marked, self.callees(later[j - 1])[k]));
                        self.lemma_callees_exist(next, marked, j - 1, k);
                    }
                }
            }
        } else {
            assert(order.len() == 0);
        }
    }

    /// What an analysed body calls is an instance of the program.
    proof fn lemma_callees_exist(&self, queue: Seq<InstanceId>, visited: Seq<bool>, j: int, k: int)
        requires
            self.wf(),
            self.worklist_wf(queue, visited),
            0 <= j < self.worklist_order(queue, visited).len(),
            0 <= k < self.callees(self.worklist_order(queue, visited)[j]).len(),
        ensures
            self.callees(self.worklist_order(queue, visited)[j])[k] < self.instances@.len(),
    {
        let i = self.worklist_order(queue, visited)[j];
        self.lemma_each_instance_once(queue, visited);
        assert(self.instance_wf(i as int));
        let body = self.instances@[i as int].body->Some_0;
        self.lemma_blocks_calls_wf(&body, body.blocks@.len() as int);
    }

    /// What the worklist run reports is what the bodies it analyses give
    /// rise to, each body once, in the order of the visits.
    pub proof fn lemma_findings_by_instance(
        &self,
        drop_ty: TyId,
        queue: Seq<InstanceId>,
        visited: Seq<bool>,
    )
        requires
            self.wf(),
            self.worklist_wf(queue, visited),
        ensures
            self.worklist_findings(drop_ty, queue, visited) == self.bodies_findings(
                drop_ty,
                self.worklist_order(queue, visited),
            ),
        decreases unvisited(visited), queue.len(),
    {
        if queue.len() > 0 {
            let instance = queue[0];
            let rest = queue.subrange(1, queue.len() as int);
            assert forall|i: int| 0 <= i < rest.len() implies (#[trigger] rest[i])
                < self.instances@.len() && self.mir_available(rest[i]) by {
                assert(rest[i] == queue[i + 1]);
            }
            if visited[instance as int] {
                self.lemma_findings_by_instance(drop_ty, rest, visited);
            } else {
                let body = self.instances@[instance as int].body->Some_0;
                let marked = visited.update(instance as int, true);
                let next = rest + self.body_calls(&body);
                lemma_visit_decreases(visited, instance as int);
                assert(self.instance_wf(instance as int));
                self.lemma_blocks_calls_wf(&body, body.blocks@.len() as int);
                self.lemma_findings_by_instance(drop_ty, next, marked);
                let order = self.worklist_order(queue, visited);
                assert(order == seq![instance] + self.worklist_order(next, marked));
                assert(order.subrange(1, order.len() as int) =~= self.worklist_order(next, marked));
            }
        }
    }

    /// Where the bodies of some instances have no findings between them,
    /// none of them has any.
    pub proof fn lemma_quiet_bodies(&self, drop_ty: TyId, order: Seq<InstanceId>, j: int)
        requires
            self.bodies_findings(drop_ty, order).len() == 0,
            0 <= j < order.len(),
        ensures
            self.body_findings(&self.instances@[order[j] as int].body->Some_0, drop_ty).len() == 0,
        decreases order.len(),
    {
        if j > 0 {
            let rest = order.subrange(1, order.len() as int);
            assert(rest[j - 1] == order[j]);
            self.lemma_quiet_bodies(drop_ty, rest, j - 1);
        }
    }

    /// A destructor without findings is one whose every analysed body is
    /// without findings: its own, and each that is reached from it.
    pub proof fn lemma_accepted_destructor_is_clean(
        &self,
        drop_ty: TyId,
        dtor: InstanceId,
        instance: InstanceId,
    )
        requires
            self.wf(),
            dtor < self.instances@.len(),
            self.mir_available(dtor),
            self.destructor_findings(drop_ty, dtor).len() == 0,
            self.worklist_order(seq![dtor], self.none_visited()).contains(instance),
        ensures
            self.body_findings(&self.instances@[instance as int].body->Some_0, drop_ty).len() == 0,
    {
        let order = self.worklist_order(seq![dtor], self.none_visited());
        self.lemma_findings_by_instance(drop_ty, seq![dtor], self.none_visited());
        let j = choose|j: int| 0 <= j < order.len() && order[j] == instance;
        self.lemma_quiet_bodies(drop_ty, order, j);
    }

    /// A body gives rise to at most one finding for each of its statements
    /// and terminators.
    pub proof fn lemma_one_finding_per_position(&self, body: &Body, upto: int, drop_ty: TyId)
        requires
            0 <= upto <= body.blocks@.len(),
        ensures
            self.blocks_findings(body, upto, drop_ty).len() <= Self::positions(body, upto),
        decreases upto,
    {
        if upto > 0 {
            self.lemma_one_finding_per_position(body, upto - 1, drop_ty);
            let block = body.blocks@[upto - 1];
            self.lemma_statements_bound(body, &block, block.statements@.len() as int, drop_ty);
        }
    }

    /// Statements give rise to at most one finding each.
    pub proof fn lemma_statements_bound(
        &self,
        body: &Body,
        block: &crate::mir::BasicBlock,
        upto: int,
        drop_ty: TyId,
    )
        requires
            0 <= upto <= block.statements@.len(),
        ensures
            self.statements_findings(body, block.statements@, upto, drop_ty).len() <= upto,
        decreases upto,
    {
        if upto > 0 {
            self.lemma_statements_bound(body, block, upto - 1, drop_ty);
        }
    }

    /// Along a path into a value, the first step whose type fails is the one
    /// reported, even where the steps after it lead to types that would pass.
    pub proof fn lemma_first_failure_reported(
        &self,
        place: &Place,
        from: int,
        step: int,
        fn_info: FnInfo,
        span: Span,
    )
        requires
            0 <= from <= step < place.projection@.len(),
            forall|j: int|
                from <= j < step ==> (#[trigger] self.projection_ty(place, j) matches Some(ty)
                    ==> self.check_step(ty, fn_info, span) is Pass),
            self.projection_ty(place, step) matches Some(ty) && self.check_step(
                ty,
                fn_info,
                span,
            ) is Fail,
        ensures
            self.projection_finding(place, from, fn_info, span) == Some(
                self.check_step(self.projection_ty(place, step)->Some_0, fn_info, span)->Fail_0,
            ),
            self.projection_finding(place, from, fn_info, span)->Some_0.proj_info()->Some_0.ty
                == self.projection_ty(place, step)->Some_0,
        decreases step - from,
    {
        if from < step {
            self.lemma_first_failure_reported(place, from + 1, step, fn_info, span);
        }
    }
}

} // verus!
