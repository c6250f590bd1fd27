//! The session coordinator: reacts to session-boundary signals from the
//! external session-rotation engine, applies the queued offline removals,
//! and hands back the active set as the plan for the upcoming session.

use vstd::prelude::*;

use crate::registry::{
    apply_offline_removals, clone_ids, lemma_concat_membership, lemma_seq_remove_all_by_membership,
    lemma_seq_remove_all_membership, mark_offenders, RegistryView, ValidatorRegistry,
};
use crate::ValidatorId;

verus! {

impl ValidatorRegistry {
    /// Plans the upcoming session: strikes every offline-marked validator
    /// from the active set (the minimum-count floor does not apply here),
    /// clears the marks, and returns the resulting active set.  A plan is
    /// always proposed, never `None`, since removals may have occurred.
    pub fn new_session(&mut self, new_index: u32) -> (r: Option<Vec<ValidatorId>>)
        requires
            old(self)@.wf(),
        ensures
            final(self)@.wf(),
            final(self)@ == apply_offline_removals(old(self)@),
            final(self)@.offline.len() == 0,
            forall|x: ValidatorId| final(self)@.active.contains(x) <==> (old(
                self,
            )@.active.contains(x) && !old(self)@.offline.contains(x)),
            r matches Some(plan) && plan@ == final(self)@.active,
    {
        self.remove_offline_validators();
        Some(clone_ids(self.validators()))
    }

    /// A session has started: observation only, no state changes.
    pub fn start_session(&self, start_index: u32)
        ensures
            true,
    {
    }

    /// A session has ended: observation only, no state changes.
    pub fn end_session(&self, end_index: u32)
        ensures
            true,
    {
    }
}

/// Maps a validator identity to the identification the session engine keeps
/// for it; here the identity stands for itself.
pub struct ValidatorOf;

impl ValidatorOf {
    /// The identity conversion: every account converts, to itself.
    pub fn convert(account: ValidatorId) -> (r: Option<ValidatorId>)
        ensures
            r == Some(account),
    {
        Some(account)
    }
}

/// Reported offenders are gone once the session boundary fires: after marks
/// for `offenders` are applied at a boundary, no reported id remains in the
/// active set — even where striking them leaves fewer validators than the
/// configured minimum — and the marks are cleared.
pub proof fn lemma_boundary_removes_reported(
    v: RegistryView,
    offenders: Seq<ValidatorId>,
    x: ValidatorId,
)
    requires
        offenders.contains(x),
    ensures
        !apply_offline_removals(mark_offenders(v, offenders)).active.contains(x),
        apply_offline_removals(mark_offenders(v, offenders)).offline.len() == 0,
{
    let marked = v.offline + offenders;
    lemma_concat_membership(v.offline, offenders, x);
    lemma_seq_remove_all_membership(v.active, marked, x);
}

/// Marking the same id offline twice before a boundary acts exactly as
/// marking it once: the boundary removes by membership, so the second mark
/// changes nothing.
pub proof fn lemma_repeated_marks_apply_once(v: RegistryView, x: ValidatorId)
    ensures
        apply_offline_removals(mark_offenders(mark_offenders(v, seq![x]), seq![x])).active
            == apply_offline_removals(mark_offenders(v, seq![x])).active,
{
    let once = v.offline + seq![x];
    let twice = (v.offline + seq![x]) + seq![x];
    assert(forall|y: ValidatorId| twice.contains(y) <==> once.contains(y)) by {
        assert forall|y: ValidatorId| twice.contains(y) <==> once.contains(y) by {
            lemma_concat_membership(v.offline, seq![x], y);
            lemma_concat_membership(v.offline + seq![x], seq![x], y);
            assert(seq![x].contains(y) <==> y == x) by {
                if seq![x].contains(y) {
                    let i = choose|i: int| 0 <= i < seq![x].len() && seq![x][i] == y;
                    assert(seq![x][0] == x);
                }
                assert(seq![x][0] == x);
            }
        }
    }
    lemma_seq_remove_all_by_membership(v.active, twice, once);
}

} // verus!
