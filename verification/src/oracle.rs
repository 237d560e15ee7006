//! The table of what the type system has answered so far.
//!
//! Asking the type system whether a type has a capability is costly, and the
//! answer never changes. So each answer is kept, and a question is asked once.
use vstd::prelude::*;
use crate::ty::{Capability, TyId, TyInfo};

verus! {

/// The answers so far, for a fixed number of types.
pub struct CapabilityCache {
    /// Four entries for each type, one for each capability.
    answers: Vec<Option<bool>>,
}

/// The place of a capability among the four entries of a type.
pub open spec fn slot(cap: Capability) -> int {
    match cap {
        Capability::ThreadMovable => 0,
        Capability::ThreadShareable => 1,
        Capability::FinalizerSafe => 2,
        Capability::ReferenceFree => 3,
    }
}

fn slot_of(cap: Capability) -> (s: usize)
    ensures
        s == slot(cap),
        s < 4,
{
    match cap {
        Capability::ThreadMovable => 0,
        Capability::ThreadShareable => 1,
        Capability::FinalizerSafe => 2,
        Capability::ReferenceFree => 3,
    }
}

impl CapabilityCache {
    /// The number of types that the table has room for.
    pub closed spec fn types(&self) -> nat {
        (self.answers@.len() / 4) as nat
    }

    /// The answer kept for the type and the capability, if one is kept.
    pub closed spec fn answer(&self, ty: TyId, cap: Capability) -> Option<bool> {
        if ty < self.types() {
            self.answers@[ty * 4 + slot(cap)]
        } else {
            None
        }
    }

    pub closed spec fn wf(&self) -> bool {
        self.answers@.len() % 4 == 0
    }

    /// A table for `types` types, with no answer yet. None where the table
    /// would not fit in memory.
    pub fn new(types: usize) -> (cache: Option<CapabilityCache>)
        ensures
            cache.is_some() == (types * 4 <= usize::MAX),
            cache matches Some(c) ==> c.wf() && c.types() == types && forall|
                ty: TyId,
                cap: Capability,
            | (#[trigger] c.answer(ty, cap)).is_none(),
    {
        if types > usize::MAX / 4 {
            return None;
        }
        let len = types * 4;
        let mut answers: Vec<Option<bool>> = Vec::new();
        while answers.len() < len
            invariant
                answers@.len() <= len,
                forall|i: int| 0 <= i < answers@.len() ==> answers@[i].is_none(),
            decreases len - answers@.len(),
        {
            answers.push(None);
        }
        Some(CapabilityCache { answers })
    }

    /// The answer kept for the type and the capability, if one is kept.
    pub fn lookup(&self, ty: TyId, cap: Capability) -> (answer: Option<bool>)
        requires
            self.wf(),
        ensures
            answer == self.answer(ty, cap),
    {
        if ty < self.answers.len() / 4 {
            self.answers[ty * 4 + slot_of(cap)]
        } else {
            None
        }
    }

    /// Writes the answers kept for `ty` into the description of that type.
    /// A capability without an answer stays as the description has it, and so
    /// does everything that is no capability.
    pub fn apply(&self, ty: TyId, info: TyInfo) -> (filled: TyInfo)
        requires
            self.wf(),
        ensures
            forall|cap: Capability| #[trigger]
                filled.spec_satisfies(cap) == match self.answer(ty, cap) {
                    Some(kept) => kept,
                    None => info.spec_satisfies(cap),
                },
            filled.name == info.name,
            filled.kind == info.kind,
            filled.is_copy == info.is_copy,
            filled.needs_finalizer == info.needs_finalizer,
            filled.is_finalize_unchecked == info.is_finalize_unchecked,
            filled.gc_pointee == info.gc_pointee,
    {
        let mut filled = info;
        if let Some(kept) = self.lookup(ty, Capability::ThreadMovable) {
            filled.is_send = kept;
        }
        if let Some(kept) = self.lookup(ty, Capability::ThreadShareable) {
            filled.is_sync = kept;
        }
        if let Some(kept) = self.lookup(ty, Capability::FinalizerSafe) {
            filled.is_finalizer_safe = kept;
        }
        if let Some(kept) = self.lookup(ty, Capability::ReferenceFree) {
            filled.is_reference_free = kept;
        }
        filled
    }

    /// The answer to the question, given what the type system says now:
    /// the answer kept, where there is one, else `fresh`, which is then kept.
    /// An answer once kept is never replaced, and no other entry changes. For
    /// a type that the table has no room for nothing is kept.
    pub fn resolve(&mut self, ty: TyId, cap: Capability, fresh: bool) -> (answer: bool)
        requires
            old(self).wf(),
        ensures
            final(self).wf(),
            final(self).types() == old(self).types(),
            answer == match old(self).answer(ty, cap) {
                Some(kept) => kept,
                None => fresh,
            },
            ty < old(self).types() ==> final(self).answer(ty, cap) == Some(answer),
            forall|t: TyId, c: Capability|
                (t != ty || c != cap) ==> (#[trigger] final(self).answer(t, c)) == old(
                    self,
                ).answer(t, c),
            forall|t: TyId, c: Capability|
                old(self).answer(t, c).is_some() ==> (#[trigger] final(self).answer(t, c)) == old(
                    self,
                ).answer(t, c),
    {
        if ty >= self.answers.len() / 4 {
            return fresh;
        }
        let at = ty * 4 + slot_of(cap);
        match self.answers[at] {
            Some(kept) => kept,
            None => {
                self.answers.set(at, Some(fresh));
                assert forall|t: TyId, c: Capability| (t != ty || c != cap) implies (
                #[trigger] self.answer(t, c)) == old(self).answer(t, c) by {
                    if t < self.types() {
                        assert(t * 4 + slot(c) != ty * 4 + slot(cap));
                    }
                }
                fresh
            },
        }
    }
}

} // verus!
