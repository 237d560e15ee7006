//! The program under analysis: a table of types and a table of instances.
use vstd::prelude::*;
use crate::mir::{BasicBlock, Body, Callee, Instance, Place, Terminator, TerminatorKind};
use crate::ty::{Capability, TyId, TyInfo, TyKind};

verus! {

/// The types and instances that one analysis run can reach.
///
/// Types are listed after the types they hold by value, so that walking from
/// a type to its components always ends.
#[derive(Debug)]
pub struct Program {
    pub types: Vec<TyInfo>,
    pub instances: Vec<Instance>,
}

/// Every type that the place mentions is one of the first `n` types.
pub open spec fn place_wf(place: &Place, n: int) -> bool {
    &&& place.local_ty < n
    &&& forall|i: int| 0 <= i < place.projection@.len() ==> (#[trigger] place.projection@[i]).ty < n
}

pub open spec fn places_wf(places: Seq<Place>, n: int) -> bool {
    forall|i: int| 0 <= i < places.len() ==> place_wf(#[trigger] &places[i], n)
}

pub open spec fn terminator_wf(term: &Terminator, n_types: int, n_instances: int) -> bool {
    &&& places_wf(term.places@, n_types)
    &&& match term.kind {
        TerminatorKind::Call { callee: Callee::FnDef { gc_ret, instance, .. }, .. } => {
            &&& gc_ret matches Some(t) ==> t < n_types
            &&& instance matches Some(i) ==> i < n_instances
        },
        TerminatorKind::Drop { ty, .. } => ty < n_types,
        _ => true,
    }
}

pub open spec fn block_wf(block: &BasicBlock, n_types: int, n_instances: int) -> bool {
    &&& forall|i: int|
        0 <= i < block.statements@.len() ==> places_wf(
            (#[trigger] block.statements@[i]).places@,
            n_types,
        )
    &&& terminator_wf(&block.terminator, n_types, n_instances)
}

pub open spec fn body_wf(body: &Body, n_types: int, n_instances: int) -> bool {
    forall|i: int|
        0 <= i < body.blocks@.len() ==> block_wf(#[trigger] &body.blocks@[i], n_types, n_instances)
}

fn ids_below(ids: &Vec<TyId>, bound: usize) -> (ok: bool)
    ensures
        ok == (forall|i: int| 0 <= i < ids@.len() ==> (#[trigger] ids@[i]) < bound),
{
    let mut i: usize = 0;
    while i < ids.len()
        invariant
            i <= ids@.len(),
            forall|j: int| 0 <= j < i ==> (#[trigger] ids@[j]) < bound,
        decreases ids@.len() - i,
    {
        if ids[i] >= bound {
            return false;
        }
        i += 1;
    }
    true
}

fn place_ok(place: &Place, n: usize) -> (ok: bool)
    ensures
        ok == place_wf(place, n as int),
{
    if place.local_ty >= n {
        return false;
    }
    let mut i: usize = 0;
    while i < place.projection.len()
        invariant
            i <= place.projection@.len(),
            forall|j: int| 0 <= j < i ==> (#[trigger] place.projection@[j]).ty < n,
        decreases place.projection@.len() - i,
    {
        if place.projection[i].ty >= n {
            return false;
        }
        i += 1;
    }
    true
}

fn places_ok(places: &Vec<Place>, n: usize) -> (ok: bool)
    ensures
        ok == places_wf(places@, n as int),
{
    let mut i: usize = 0;
    while i < places.len()
        invariant
            i <= places@.len(),
            forall|j: int| 0 <= j < i ==> place_wf(#[trigger] &places@[j], n as int),
        decreases places@.len() - i,
    {
        if !place_ok(&places[i], n) {
            return false;
        }
        i += 1;
    }
    true
}

fn terminator_ok(term: &Terminator, n_types: usize, n_instances: usize) -> (ok: bool)
    ensures
        ok == terminator_wf(term, n_types as int, n_instances as int),
{
    let kind_ok = match &term.kind {
        TerminatorKind::Call { callee: Callee::FnDef { gc_ret, instance, .. }, .. } => {
            let ret_ok = match gc_ret {
                Some(t) => *t < n_types,
                None => true,
            };
            let instance_ok = match instance {
                Some(i) => *i < n_instances,
                None => true,
            };
            ret_ok && instance_ok
        },
        TerminatorKind::Drop { ty, .. } => *ty < n_types,
        _ => true,
    };
    kind_ok && places_ok(&term.places, n_types)
}

fn block_ok(block: &BasicBlock, n_types: usize, n_instances: usize) -> (ok: bool)
    ensures
        ok == block_wf(block, n_types as int, n_instances as int),
{
    let mut i: usize = 0;
    while i < block.statements.len()
        invariant
            i <= block.statements@.len(),
            forall|j: int|
                0 <= j < i ==> places_wf((#[trigger] block.statements@[j]).places@, n_types as int),
        decreases block.statements@.len() - i,
    {
        if !places_ok(&block.statements[i].places, n_types) {
            return false;
        }
        i += 1;
    }
    terminator_ok(&block.terminator, n_types, n_instances)
}

fn body_ok(body: &Body, n_types: usize, n_instances: usize) -> (ok: bool)
    ensures
        ok == body_wf(body, n_types as int, n_instances as int),
{
    let mut i: usize = 0;
    while i < body.blocks.len()
        invariant
            i <= body.blocks@.len(),
            forall|j: int|
                0 <= j < i ==> block_wf(
                    #[trigger] &body.blocks@[j],
                    n_types as int,
                    n_instances as int,
                ),
        decreases body.blocks@.len() - i,
    {
        if !block_ok(&body.blocks[i], n_types, n_instances) {
            return false;
        }
        i += 1;
    }
    true
}

impl Program {
    /// The type at `t` holds by value only types listed before it, names only
    /// types of the table, and its destructor, if it has one, is an instance
    /// with a body.
    pub open spec fn ty_wf(&self, t: int) -> bool {
        let info = self.types@[t];
        &&& forall|i: int|
            0 <= i < info.kind.components().len() ==> (#[trigger] info.kind.components()[i]) < t
        &&& info.gc_pointee matches Some(p) ==> p < self.types@.len()
        &&& info.kind.dtor() matches Some(d) ==> d < self.instances@.len()
            && self.instances@[d as int].body.is_some()
    }

    pub open spec fn instance_wf(&self, i: int) -> bool {
        self.instances@[i].body matches Some(body) ==> body_wf(
            &body,
            self.types@.len() as int,
            self.instances@.len() as int,
        )
    }

    /// The invariant that every analysis relies on.
    pub open spec fn wf(&self) -> bool {
        &&& forall|t: int| 0 <= t < self.types@.len() ==> #[trigger] self.ty_wf(t)
        &&& forall|i: int| 0 <= i < self.instances@.len() ==> #[trigger] self.instance_wf(i)
    }

    /// Decides [`Program::wf`].
    pub fn is_well_formed(&self) -> (ok: bool)
        ensures
            ok == self.wf(),
    {
        let mut t: usize = 0;
        while t < self.types.len()
            invariant
                t <= self.types@.len(),
                forall|j: int| 0 <= j < t ==> #[trigger] self.ty_wf(j),
            decreases self.types@.len() - t,
        {
            if !self.ty_ok(t) {
                return false;
            }
            t += 1;
        }
        let mut i: usize = 0;
        while i < self.instances.len()
            invariant
                i <= self.instances@.len(),
                forall|j: int| 0 <= j < self.types@.len() ==> #[trigger] self.ty_wf(j),
                forall|j: int| 0 <= j < i ==> #[trigger] self.instance_wf(j),
            decreases self.instances@.len() - i,
        {
            let ok = match &self.instances[i].body {
                Some(body) => body_ok(body, self.types.len(), self.instances.len()),
                None => true,
            };
            if !ok {
                assert(!self.instance_wf(i as int));
                return false;
            }
            assert(self.instance_wf(i as int));
            i += 1;
        }
        true
    }

    /// Whether the body names only types and instances of this program, as
    /// every analysis of it requires.
    pub fn body_fits(&self, body: &Body) -> (ok: bool)
        ensures
            ok == body_wf(body, self.types@.len() as int, self.instances@.len() as int),
    {
        body_ok(body, self.types.len(), self.instances.len())
    }

    fn ty_ok(&self, t: usize) -> (ok: bool)
        requires
            t < self.types@.len(),
        ensures
            ok == self.ty_wf(t as int),
    {
        let info = &self.types[t];
        let pointee_ok = match info.gc_pointee {
            Some(p) => p < self.types.len(),
            None => true,
        };
        let components_ok = match &info.kind {
            TyKind::Slice(e) => {
                assert(info.kind.components()[0] == *e);
                *e < t
            },
            TyKind::Array(e) => {
                assert(info.kind.components()[0] == *e);
                *e < t
            },
            TyKind::Tuple(fields) => ids_below(fields, t),
            TyKind::Adt(def) => ids_below(&def.fields, t),
            _ => true,
        };
        let dtor_ok = match &info.kind {
            TyKind::Adt(def) => match def.dtor {
                Some(d) => d < self.instances.len() && self.instances[d].body.is_some(),
                None => true,
            },
            _ => true,
        };
        pointee_ok && components_ok && dtor_ok
    }

    /// Whether the type at `t` has the capability, as the type system answered.
    pub fn satisfies(&self, t: TyId, cap: Capability) -> (b: bool)
        requires
            t < self.types@.len(),
        ensures
            b == self.types@[t as int].spec_satisfies(cap),
    {
        self.types[t].satisfies(cap)
    }
}

} // verus!
