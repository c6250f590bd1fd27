//! The validator registry: the active, approved and offline-marked validator
//! sets, with the pure state transitions that mutate them.
//!
//! The registry upholds two invariants: the active set never holds a
//! duplicate entry, and neither does the approved set.  The offline-marked
//! list may hold duplicates by design (a validator can be reported more than
//! once between two session boundaries); applying the removals goes by
//! membership, so repeated marks act once.

use vstd::prelude::*;

use crate::errors::Error;
use crate::ValidatorId;

verus! {

broadcast use vstd::seq_lib::group_seq_properties;

/// Holds when `s` has no duplicate entries.
pub open spec fn no_dups(s: Seq<ValidatorId>) -> bool {
    forall|i: int, j: int| 0 <= i < j < s.len() ==> s[i] != s[j]
}

/// `s` with every occurrence of `id` removed, order preserved.
pub open spec fn seq_remove(s: Seq<ValidatorId>, id: ValidatorId) -> Seq<ValidatorId>
    decreases s.len(),
{
    if s.len() == 0 {
        Seq::empty()
    } else {
        let rest = seq_remove(s.drop_last(), id);
        if s.last() == id {
            rest
        } else {
            rest.push(s.last())
        }
    }
}

/// `s` with every entry that occurs in `marked` removed, order preserved.
pub open spec fn seq_remove_all(s: Seq<ValidatorId>, marked: Seq<ValidatorId>) -> Seq<ValidatorId>
    decreases s.len(),
{
    if s.len() == 0 {
        Seq::empty()
    } else {
        let rest = seq_remove_all(s.drop_last(), marked);
        if marked.contains(s.last()) {
            rest
        } else {
            rest.push(s.last())
        }
    }
}

pub proof fn lemma_seq_remove_membership(s: Seq<ValidatorId>, id: ValidatorId, x: ValidatorId)
    ensures
        seq_remove(s, id).contains(x) <==> (s.contains(x) && x != id),
    decreases s.len(),
{
    if s.len() == 0 {
    } else {
        let rest = s.drop_last();
        lemma_seq_remove_membership(rest, id, x);
        assert(s.contains(x) <==> rest.contains(x) || s.last() == x) by {
            if rest.contains(x) {
                let i = choose|i: int| 0 <= i < rest.len() && rest[i] == x;
                assert(s[i] == x);
            }
            if s.last() == x {
                assert(s[s.len() - 1] == x);
            }
            if s.contains(x) {
                let i = choose|i: int| 0 <= i < s.len() && s[i] == x;
                if i < s.len() - 1 {
                    assert(rest[i] == x);
                }
            }
        }
        let r = seq_remove(rest, id);
        if s.last() != id {
            assert(r.push(s.last()).contains(x) <==> r.contains(x) || s.last() == x) by {
                if r.contains(x) {
                    let i = choose|i: int| 0 <= i < r.len() && r[i] == x;
                    assert(r.push(s.last())[i] == x);
                }
                if s.last() == x {
                    assert(r.push(s.last())[r.len() as int] == x);
                }
                if r.push(s.last()).contains(x) {
                    let i = choose|i: int| 0 <= i < r.push(s.last()).len() && r.push(s.last())[i]
                        == x;
                    if i < r.len() {
                        assert(r[i] == x);
                    }
                }
            }
        }
    }
}

pub proof fn lemma_seq_remove_no_dups(s: Seq<ValidatorId>, id: ValidatorId)
    requires
        no_dups(s),
    ensures
        no_dups(seq_remove(s, id)),
    decreases s.len(),
{
    if s.len() == 0 {
    } else {
        let rest = s.drop_last();
        assert(no_dups(rest)) by {
            assert forall|i: int, j: int| 0 <= i < j < rest.len() implies rest[i] != rest[j] by {
                assert(s[i] == rest[i] && s[j] == rest[j]);
            }
        }
        lemma_seq_remove_no_dups(rest, id);
        let r = seq_remove(rest, id);
        if s.last() != id {
            assert(!r.contains(s.last())) by {
                if r.contains(s.last()) {
                    lemma_seq_remove_membership(rest, id, s.last());
                    let i = choose|i: int| 0 <= i < rest.len() && rest[i] == s.last();
                    assert(s[i] == s.last());
                    assert(s[i] != s[s.len() - 1]);
                }
            }
            assert forall|i: int, j: int|
                0 <= i < j < r.push(s.last()).len() implies r.push(s.last())[i] != r.push(
                s.last(),
            )[j] by {
                if j < r.len() {
                    assert(r.push(s.last())[i] == r[i] && r.push(s.last())[j] == r[j]);
                } else {
                    assert(r.push(s.last())[j] == s.last());
                    assert(r.push(s.last())[i] == r[i]);
                    assert(r.contains(r[i]));
                }
            }
        }
    }
}

pub proof fn lemma_seq_remove_all_membership(
    s: Seq<ValidatorId>,
    marked: Seq<ValidatorId>,
    x: ValidatorId,
)
    ensures
        seq_remove_all(s, marked).contains(x) <==> (s.contains(x) && !marked.contains(x)),
    decreases s.len(),
{
    if s.len() == 0 {
    } else {
        let rest = s.drop_last();
        lemma_seq_remove_all_membership(rest, marked, x);
        assert(s.contains(x) <==> rest.contains(x) || s.last() == x) by {
            if rest.contains(x) {
                let i = choose|i: int| 0 <= i < rest.len() && rest[i] == x;
                assert(s[i] == x);
            }
            if s.last() == x {
                assert(s[s.len() - 1] == x);
            }
            if s.contains(x) {
                let i = choose|i: int| 0 <= i < s.len() && s[i] == x;
                if i < s.len() - 1 {
                    assert(rest[i] == x);
                }
            }
        }
        let r = seq_remove_all(rest, marked);
        if !marked.contains(s.last()) {
            assert(r.push(s.last()).contains(x) <==> r.contains(x) || s.last() == x) by {
                if r.contains(x) {
                    let i = choose|i: int| 0 <= i < r.len() && r[i] == x;
                    assert(r.push(s.last())[i] == x);
                }
                if s.last() == x {
                    assert(r.push(s.last())[r.len() as int] == x);
                }
                if r.push(s.last()).contains(x) {
                    let i = choose|i: int| 0 <= i < r.push(s.last()).len() && r.push(s.last())[i]
                        == x;
                    if i < r.len() {
                        assert(r[i] == x);
                    }
                }
            }
        }
    }
}

pub proof fn lemma_seq_remove_all_no_dups(s: Seq<ValidatorId>, marked: Seq<ValidatorId>)
    requires
        no_dups(s),
    ensures
        no_dups(seq_remove_all(s, marked)),
    decreases s.len(),
{
    if s.len() == 0 {
    } else {
        let rest = s.drop_last();
        assert(no_dups(rest)) by {
            assert forall|i: int, j: int| 0 <= i < j < rest.len() implies rest[i] != rest[j] by {
                assert(s[i] == rest[i] && s[j] == rest[j]);
            }
        }
        lemma_seq_remove_all_no_dups(rest, marked);
        let r = seq_remove_all(rest, marked);
        if !marked.contains(s.last()) {
            assert(!r.contains(s.last())) by {
                if r.contains(s.last()) {
                    lemma_seq_remove_all_membership(rest, marked, s.last());
                    let i = choose|i: int| 0 <= i < rest.len() && rest[i] == s.last();
                    assert(s[i] == s.last());
                    assert(s[i] != s[s.len() - 1]);
                }
            }
            assert forall|i: int, j: int|
                0 <= i < j < r.push(s.last()).len() implies r.push(s.last())[i] != r.push(
                s.last(),
            )[j] by {
                if j < r.len() {
                    assert(r.push(s.last())[i] == r[i] && r.push(s.last())[j] == r[j]);
                } else {
                    assert(r.push(s.last())[j] == s.last());
                    assert(r.push(s.last())[i] == r[i]);
                    assert(r.contains(r[i]));
                }
            }
        }
    }
}

/// Two mark lists that agree on membership strike out the same entries.
pub proof fn lemma_seq_remove_all_by_membership(
    s: Seq<ValidatorId>,
    marked_a: Seq<ValidatorId>,
    marked_b: Seq<ValidatorId>,
)
    requires
        forall|x: ValidatorId| marked_a.contains(x) <==> marked_b.contains(x),
    ensures
        seq_remove_all(s, marked_a) == seq_remove_all(s, marked_b),
    decreases s.len(),
{
    if s.len() == 0 {
    } else {
        lemma_seq_remove_all_by_membership(s.drop_last(), marked_a, marked_b);
        assert(marked_a.contains(s.last()) <==> marked_b.contains(s.last()));
    }
}

/// Membership in a concatenation is membership in either part.
pub proof fn lemma_concat_membership(a: Seq<ValidatorId>, b: Seq<ValidatorId>, x: ValidatorId)
    ensures
        (a + b).contains(x) <==> (a.contains(x) || b.contains(x)),
{
    if a.contains(x) {
        let i = choose|i: int| 0 <= i < a.len() && a[i] == x;
        assert((a + b)[i] == x);
    }
    if b.contains(x) {
        let i = choose|i: int| 0 <= i < b.len() && b[i] == x;
        assert((a + b)[a.len() + i] == x);
    }
    if (a + b).contains(x) {
        let i = choose|i: int| 0 <= i < (a + b).len() && (a + b)[i] == x;
        if i < a.len() {
            assert(a[i] == x);
        } else {
            assert(b[i - a.len()] == x);
        }
    }
}

/// The abstract state of the registry: the three validator sequences and the
/// configured minimum active count.
#[verifier::ext_equal]
pub struct RegistryView {
    /// The currently effective participant set, in insertion order.
    pub active: Seq<ValidatorId>,
    /// Validators permitted to add themselves back after an offline removal.
    pub approved: Seq<ValidatorId>,
    /// Validators marked for removal at the next session boundary.
    pub offline: Seq<ValidatorId>,
    /// Floor on the active count that ordinary removal may not go below.
    pub min_validators: nat,
}

impl RegistryView {
    /// Well-formedness: neither the active nor the approved set holds a
    /// duplicate entry.
    pub open spec fn wf(self) -> bool {
        no_dups(self.active) && no_dups(self.approved)
    }
}

/// Ordinary removal must leave at least `min_validators` active entries;
/// the count saturates at zero so an empty set with a zero minimum passes.
pub open spec fn removal_allowed(v: RegistryView) -> bool {
    (if v.active.len() >= 1 {
        v.active.len() - 1
    } else {
        0
    }) >= v.min_validators
}

/// Marking offenders appends them to the offline list and touches nothing
/// else.
pub open spec fn mark_offenders(v: RegistryView, offenders: Seq<ValidatorId>) -> RegistryView {
    RegistryView { offline: v.offline + offenders, ..v }
}

/// A session boundary strikes every offline-marked validator from the active
/// set (bypassing the minimum-count floor by design) and clears the marks.
pub open spec fn apply_offline_removals(v: RegistryView) -> RegistryView {
    RegistryView { active: seq_remove_all(v.active, v.offline), offline: Seq::empty(), ..v }
}

/// The validator registry state.
pub struct ValidatorRegistry {
    active: Vec<ValidatorId>,
    approved: Vec<ValidatorId>,
    offline: Vec<ValidatorId>,
    min_validators: usize,
}

impl View for ValidatorRegistry {
    type V = RegistryView;

    closed spec fn view(&self) -> RegistryView {
        RegistryView {
            active: self.active@,
            approved: self.approved@,
            offline: self.offline@,
            min_validators: self.min_validators as nat,
        }
    }
}

/// Whether `v` holds `id`.
fn contains_id(v: &Vec<ValidatorId>, id: ValidatorId) -> (b: bool)
    ensures
        b == v@.contains(id),
{
    let mut i: usize = 0;
    while i < v.len()
        invariant
            i <= v.len(),
            forall|j: int| 0 <= j < i ==> v@[j] != id,
        decreases v.len() - i,
    {
        if v[i] == id {
            proof {
                assert(v@[i as int] == id);
            }
            return true;
        }
        i = i + 1;
    }
    proof {
        if v@.contains(id) {
            let j = choose|j: int| 0 <= j < v@.len() && v@[j] == id;
            assert(v@[j] != id);
        }
    }
    false
}

/// A copy of `v` with every occurrence of `id` removed.
fn remove_id(v: &Vec<ValidatorId>, id: ValidatorId) -> (r: Vec<ValidatorId>)
    ensures
        r@ == seq_remove(v@, id),
{
    let mut out: Vec<ValidatorId> = Vec::new();
    let mut i: usize = 0;
    while i < v.len()
        invariant
            i <= v.len(),
            out@ == seq_remove(v@.take(i as int), id),
        decreases v.len() - i,
    {
        proof {
            assert(v@.take(i as int + 1).drop_last() =~= v@.take(i as int));
            assert(v@.take(i as int + 1).last() == v@[i as int]);
        }
        if v[i] != id {
            out.push(v[i]);
        }
        i = i + 1;
    }
    proof {
        assert(v@.take(v@.len() as int) =~= v@);
    }
    out
}

/// A copy of `v` with every entry that occurs in `marked` removed.
fn remove_all_ids(v: &Vec<ValidatorId>, marked: &Vec<ValidatorId>) -> (r: Vec<ValidatorId>)
    ensures
        r@ == seq_remove_all(v@, marked@),
{
    let mut out: Vec<ValidatorId> = Vec::new();
    let mut i: usize = 0;
    while i < v.len()
        invariant
            i <= v.len(),
            out@ == seq_remove_all(v@.take(i as int), marked@),
        decreases v.len() - i,
    {
        proof {
            assert(v@.take(i as int + 1).drop_last() =~= v@.take(i as int));
            assert(v@.take(i as int + 1).last() == v@[i as int]);
        }
        if !contains_id(marked, v[i]) {
            out.push(v[i]);
        }
        i = i + 1;
    }
    proof {
        assert(v@.take(v@.len() as int) =~= v@);
    }
    out
}

impl ValidatorRegistry {
    /// An empty registry with the given minimum active count.
    pub fn new(min_validators: usize) -> (r: Self)
        ensures
            r@.active.len() == 0,
            r@.approved.len() == 0,
            r@.offline.len() == 0,
            r@.min_validators == min_validators as nat,
            r@.wf(),
    {
        ValidatorRegistry { active: Vec::new(), approved: Vec::new(), offline: Vec::new(), min_validators }
    }

    /// One-time setup with the genesis validator set: the set becomes both
    /// the active and the approved set.  Startup configuration with fewer
    /// than two entries, a repeated entry, or on an already populated
    /// registry is a fatal host error and is excluded here.
    pub fn initialize_validators(&mut self, initial: &Vec<ValidatorId>)
        requires
            old(self)@.wf(),
            old(self)@.active.len() == 0,
            initial@.len() >= 2,
            no_dups(initial@),
        ensures
            final(self)@.wf(),
            final(self)@.active == initial@,
            final(self)@.approved == initial@,
            final(self)@.offline == old(self)@.offline,
            final(self)@.min_validators == old(self)@.min_validators,
    {
        self.active = clone_ids(initial);
        self.approved = clone_ids(initial);
    }

    /// Appends `validator_id` to the active set unless it is already there.
    /// On failure nothing changes.
    pub fn do_add_validator(&mut self, validator_id: ValidatorId) -> (r: Result<(), Error>)
        requires
            old(self)@.wf(),
        ensures
            final(self)@.wf(),
            old(self)@.active.contains(validator_id) ==> r == Err::<(), Error>(
                Error::DuplicateValidator,
            ) && final(self)@ == old(self)@,
            !old(self)@.active.contains(validator_id) ==> r == Ok::<(), Error>(()) && final(self)@
                == (RegistryView { active: old(self)@.active.push(validator_id), ..old(self)@ }),
    {
        if contains_id(&self.active, validator_id) {
            return Err(Error::DuplicateValidator);
        }
        proof {
            lemma_no_dups_push(self@.active, validator_id);
        }
        self.active.push(validator_id);
        Ok(())
    }

    /// Removes `validator_id` from the active set, unless doing so would
    /// leave fewer than the configured minimum.  The floor check goes by the
    /// current count alone, so removing an absent validator from a large
    /// enough set succeeds and changes nothing.  On failure nothing changes.
    pub fn do_remove_validator(&mut self, validator_id: ValidatorId) -> (r: Result<(), Error>)
        requires
            old(self)@.wf(),
        ensures
            final(self)@.wf(),
            !removal_allowed(old(self)@) ==> r == Err::<(), Error>(Error::TooFewValidators) && final(self)@ == old(self)@,
            removal_allowed(old(self)@) ==> r == Ok::<(), Error>(()) && final(self)@
                == (RegistryView {
                active: seq_remove(old(self)@.active, validator_id),
                ..old(self)@
            }),
    {
        let len = self.active.len();
        let remaining = if len >= 1 {
            len - 1
        } else {
            0
        };
        if remaining < self.min_validators {
            return Err(Error::TooFewValidators);
        }
        proof {
            lemma_seq_remove_no_dups(self@.active, validator_id);
        }
        self.active = remove_id(&self.active, validator_id);
        Ok(())
    }

    /// Appends `validator_id` to the approved set unless it is already
    /// there.  On failure nothing changes.
    pub fn approve_validator(&mut self, validator_id: ValidatorId) -> (r: Result<(), Error>)
        requires
            old(self)@.wf(),
        ensures
            final(self)@.wf(),
            old(self)@.approved.contains(validator_id) ==> r == Err::<(), Error>(
                Error::DuplicateValidator,
            ) && final(self)@ == old(self)@,
            !old(self)@.approved.contains(validator_id) ==> r == Ok::<(), Error>(()) && final(self)@ == (RegistryView {
                approved: old(self)@.approved.push(validator_id),
                ..old(self)@
            }),
    {
        if contains_id(&self.approved, validator_id) {
            return Err(Error::DuplicateValidator);
        }
        proof {
            lemma_no_dups_push(self@.approved, validator_id);
        }
        self.approved.push(validator_id);
        Ok(())
    }

    /// Removes `validator_id` from the approved set; never fails.
    pub fn unapprove_validator(&mut self, validator_id: ValidatorId) -> (r: Result<(), Error>)
        requires
            old(self)@.wf(),
        ensures
            final(self)@.wf(),
            r == Ok::<(), Error>(()),
            final(self)@ == (RegistryView {
                approved: seq_remove(old(self)@.approved, validator_id),
                ..old(self)@
            }),
    {
        proof {
            lemma_seq_remove_no_dups(self@.approved, validator_id);
        }
        self.approved = remove_id(&self.approved, validator_id);
        Ok(())
    }

    /// Marks a validator for removal at the next session boundary.  No
    /// duplicate check: repeated marks are tolerated and act once when the
    /// boundary applies them.
    pub fn mark_for_removal(&mut self, validator_id: ValidatorId)
        requires
            old(self)@.wf(),
        ensures
            final(self)@.wf(),
            final(self)@ == (RegistryView {
                offline: old(self)@.offline.push(validator_id),
                ..old(self)@
            }),
    {
        self.offline.push(validator_id);
    }

    /// Applies the accumulated offline marks: strikes every marked validator
    /// from the active set — bypassing the minimum-count floor, since
    /// offline validators produce nothing either way — and clears the marks
    /// so they are applied exactly once.
    pub fn remove_offline_validators(&mut self)
        requires
            old(self)@.wf(),
        ensures
            final(self)@.wf(),
            final(self)@ == apply_offline_removals(old(self)@),
            final(self)@.offline.len() == 0,
            forall|x: ValidatorId| final(self)@.active.contains(x) <==> (old(self)@.active.contains(x) && !old(self)@.offline.contains(x)),
    {
        proof {
            lemma_seq_remove_all_no_dups(self@.active, self@.offline);
            assert forall|x: ValidatorId|
                seq_remove_all(self@.active, self@.offline).contains(x) <==> (self@.active.contains(
                    x,
                ) && !self@.offline.contains(x)) by {
                lemma_seq_remove_all_membership(self@.active, self@.offline, x);
            }
        }
        self.active = remove_all_ids(&self.active, &self.offline);
        self.offline = Vec::new();
        proof {
            assert(self@.offline =~= Seq::<ValidatorId>::empty());
        }
    }

    /// The public addition entry point: adds to the active set and approves
    /// in one step.  Fails with `DuplicateValidator` if the id is already
    /// active or already approved; on failure nothing changes.
    pub fn add_validator(&mut self, validator_id: ValidatorId) -> (r: Result<(), Error>)
        requires
            old(self)@.wf(),
        ensures
            final(self)@.wf(),
            (old(self)@.active.contains(validator_id) || old(self)@.approved.contains(
                validator_id,
            )) ==> r == Err::<(), Error>(Error::DuplicateValidator) && final(self)@ == old(self)@,
            !(old(self)@.active.contains(validator_id) || old(self)@.approved.contains(
                validator_id,
            )) ==> r == Ok::<(), Error>(()) && final(self)@ == (RegistryView {
                active: old(self)@.active.push(validator_id),
                approved: old(self)@.approved.push(validator_id),
                ..old(self)@
            }),
    {
        if contains_id(&self.active, validator_id) {
            return Err(Error::DuplicateValidator);
        }
        if contains_id(&self.approved, validator_id) {
            return Err(Error::DuplicateValidator);
        }
        proof {
            lemma_no_dups_push(self@.active, validator_id);
            lemma_no_dups_push(self@.approved, validator_id);
        }
        self.active.push(validator_id);
        self.approved.push(validator_id);
        Ok(())
    }

    /// The public removal entry point: removes from the active set and
    /// withdraws approval in one step.  Fails with `TooFewValidators` if the
    /// removal would leave fewer active validators than the configured
    /// minimum; on failure nothing changes.
    pub fn remove_validator(&mut self, validator_id: ValidatorId) -> (r: Result<(), Error>)
        requires
            old(self)@.wf(),
        ensures
            final(self)@.wf(),
            !removal_allowed(old(self)@) ==> r == Err::<(), Error>(Error::TooFewValidators) && final(self)@ == old(self)@,
            removal_allowed(old(self)@) ==> r == Ok::<(), Error>(()) && final(self)@
                == (RegistryView {
                active: seq_remove(old(self)@.active, validator_id),
                approved: seq_remove(old(self)@.approved, validator_id),
                ..old(self)@
            }),
    {
        let len = self.active.len();
        let remaining = if len >= 1 {
            len - 1
        } else {
            0
        };
        if remaining < self.min_validators {
            return Err(Error::TooFewValidators);
        }
        proof {
            lemma_seq_remove_no_dups(self@.active, validator_id);
            lemma_seq_remove_no_dups(self@.approved, validator_id);
        }
        self.active = remove_id(&self.active, validator_id);
        self.approved = remove_id(&self.approved, validator_id);
        Ok(())
    }

    /// Self-service re-addition of a validator that was removed while
    /// offline.  Fails with `UnauthorizedCaller` unless the caller is the
    /// validator itself, regardless of approval state; with `NotApproved`
    /// unless the id is approved; and with `DuplicateValidator` if it is
    /// already active.  On failure nothing changes.
    pub fn add_validator_again(
        &mut self,
        caller: ValidatorId,
        validator_id: ValidatorId,
    ) -> (r: Result<(), Error>)
        requires
            old(self)@.wf(),
        ensures
            final(self)@.wf(),
            caller != validator_id ==> r == Err::<(), Error>(Error::UnauthorizedCaller) && final(self)@ == old(self)@,
            caller == validator_id && !old(self)@.approved.contains(validator_id) ==> r == Err::<
                (),
                Error,
            >(Error::NotApproved) && final(self)@ == old(self)@,
            caller == validator_id && old(self)@.approved.contains(validator_id) && old(self)@.active.contains(validator_id) ==> r == Err::<(), Error>(Error::DuplicateValidator)
                && final(self)@ == old(self)@,
            caller == validator_id && old(self)@.approved.contains(validator_id) && !old(self)@.active.contains(validator_id) ==> r == Ok::<(), Error>(()) && final(self)@
                == (RegistryView { active: old(self)@.active.push(validator_id), ..old(self)@ }),
    {
        if caller != validator_id {
            return Err(Error::UnauthorizedCaller);
        }
        if !contains_id(&self.approved, validator_id) {
            return Err(Error::NotApproved);
        }
        self.do_add_validator(validator_id)
    }

    /// The active set, in order.
    pub fn validators(&self) -> (r: &Vec<ValidatorId>)
        ensures
            r@ == self@.active,
    {
        &self.active
    }

    /// The approved set, in order.
    pub fn approved_validators(&self) -> (r: &Vec<ValidatorId>)
        ensures
            r@ == self@.approved,
    {
        &self.approved
    }

    /// The validators marked for removal at the next session boundary.
    pub fn validators_to_remove(&self) -> (r: &Vec<ValidatorId>)
        ensures
            r@ == self@.offline,
    {
        &self.offline
    }

    /// The configured minimum active count.
    pub fn min_validators(&self) -> (r: usize)
        ensures
            r as nat == self@.min_validators,
    {
        self.min_validators
    }
}

proof fn lemma_no_dups_push(s: Seq<ValidatorId>, id: ValidatorId)
    requires
        no_dups(s),
        !s.contains(id),
    ensures
        no_dups(s.push(id)),
{
    assert forall|i: int, j: int| 0 <= i < j < s.push(id).len() implies s.push(id)[i] != s.push(
        id,
    )[j] by {
        if j == s.len() {
            assert(s.push(id)[i] == s[i]);
            assert(s.contains(s[i]));
        } else {
            assert(s.push(id)[i] == s[i] && s.push(id)[j] == s[j]);
        }
    }
}

/// An owned copy of a validator id list.
pub(crate) fn clone_ids(v: &Vec<ValidatorId>) -> (r: Vec<ValidatorId>)
    ensures
        r@ == v@,
{
    let mut out: Vec<ValidatorId> = Vec::new();
    let mut i: usize = 0;
    while i < v.len()
        invariant
            i <= v.len(),
            out@ == v@.take(i as int),
        decreases v.len() - i,
    {
        proof {
            assert(v@.take(i as int + 1) =~= v@.take(i as int).push(v@[i as int]));
        }
        out.push(v[i]);
        i = i + 1;
    }
    proof {
        assert(v@.take(v@.len() as int) =~= v@);
    }
    out
}

} // verus!
