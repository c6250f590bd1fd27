//! Connection housekeeping decisions: on a fixed cadence, make sure this
//! node is known to at least one bootstrap peer of the store network.
//!
//! The directory of bootstrap nodes maps a store-network public key to an
//! ordered list of multiaddresses.  Where this node's own key is absent, the
//! plan is to try the last multiaddress of the first directory entry and, on
//! failure, exactly one more (the second-to-last of the same entry) — a
//! bounded fallback of depth two, never recursive.  Connect failures are
//! logged and never propagated: reachability here is best effort.
//!
//! Publishing this node's own identity back to the ledger is a planned
//! future step of housekeeping and is intentionally absent for now.

use vstd::prelude::*;

use crate::errors::Error;
use crate::store::{clone_bytes, Response};

verus! {

/// How many ticks lie between two runs of the housekeeping and metadata
/// probe tasks.
pub const DEFAULT_TASK_PERIOD: u64 = 5;

/// Whether the periodic tasks run on this tick.
pub fn should_run_periodic_task(block_number: u64, period: u64) -> (b: bool)
    requires
        period > 0,
    ensures
        b == (block_number % period == 0),
{
    block_number % period == 0
}

/// One entry of the bootstrap directory: a store-network public key and the
/// multiaddresses it was published under.
pub struct BootstrapEntry {
    pub public_key: Vec<u8>,
    pub multiaddrs: Vec<Vec<u8>>,
}

/// The abstract value of a directory entry.
pub struct BootstrapEntryView {
    pub public_key: Seq<u8>,
    pub multiaddrs: Seq<Seq<u8>>,
}

impl View for BootstrapEntry {
    type V = BootstrapEntryView;

    open spec fn view(&self) -> BootstrapEntryView {
        BootstrapEntryView { public_key: self.public_key@, multiaddrs: self.multiaddrs.deep_view() }
    }
}

impl DeepView for BootstrapEntry {
    type V = BootstrapEntryView;

    open spec fn deep_view(&self) -> BootstrapEntryView {
        self.view()
    }
}

/// The bootstrap directory, in entry order.  This core only reads it; it is
/// filled elsewhere.
pub struct BootstrapDirectory {
    entries: Vec<BootstrapEntry>,
}

impl View for BootstrapDirectory {
    type V = Seq<BootstrapEntryView>;

    closed spec fn view(&self) -> Seq<BootstrapEntryView> {
        self.entries.deep_view()
    }
}

/// Whether any directory entry carries the given public key.
pub open spec fn directory_has_key(dir: Seq<BootstrapEntryView>, public_key: Seq<u8>) -> bool {
    exists|i: int| 0 <= i < dir.len() && dir[i].public_key == public_key
}

/// The housekeeping decision for one run.
pub enum BootstrapPlan {
    /// This node's key is already in the directory: nothing to do.
    AlreadyKnown,
    /// No directory entry offers an address to try.
    NothingToTry,
    /// Connect to `primary`; if that fails, to `fallback` — and stop there.
    Attempt { primary: Vec<u8>, fallback: Option<Vec<u8>> },
}

/// The abstract value of a housekeeping decision.
pub enum BootstrapPlanView {
    AlreadyKnown,
    NothingToTry,
    Attempt { primary: Seq<u8>, fallback: Option<Seq<u8>> },
}

impl View for BootstrapPlan {
    type V = BootstrapPlanView;

    open spec fn view(&self) -> BootstrapPlanView {
        match self {
            BootstrapPlan::AlreadyKnown => BootstrapPlanView::AlreadyKnown,
            BootstrapPlan::NothingToTry => BootstrapPlanView::NothingToTry,
            BootstrapPlan::Attempt { primary, fallback } => BootstrapPlanView::Attempt {
                primary: primary@,
                fallback: match fallback {
                    Some(addr) => Some(addr@),
                    None => None,
                },
            },
        }
    }
}

/// The decision the plan function is owed: nothing where the key is already
/// published or no address is listed; otherwise the last multiaddress of the
/// first entry, with the second-to-last as the only fallback.
pub open spec fn bootstrap_plan(
    dir: Seq<BootstrapEntryView>,
    public_key: Seq<u8>,
) -> BootstrapPlanView {
    if directory_has_key(dir, public_key) {
        BootstrapPlanView::AlreadyKnown
    } else if dir.len() == 0 || dir[0].multiaddrs.len() == 0 {
        BootstrapPlanView::NothingToTry
    } else {
        let addrs = dir[0].multiaddrs;
        BootstrapPlanView::Attempt {
            primary: addrs.last(),
            fallback: if addrs.len() >= 2 {
                Some(addrs[addrs.len() - 2])
            } else {
                None
            },
        }
    }
}

/// Whether two byte strings are equal.
fn bytes_eq(a: &Vec<u8>, b: &Vec<u8>) -> (r: bool)
    ensures
        r == (a@ == b@),
{
    if a.len() != b.len() {
        return false;
    }
    let mut i: usize = 0;
    while i < a.len()
        invariant
            i <= a.len(),
            a@.len() == b@.len(),
            forall|j: int| 0 <= j < i ==> a@[j] == b@[j],
        decreases a.len() - i,
    {
        if a[i] != b[i] {
            return false;
        }
        i = i + 1;
    }
    proof {
        assert(a@ =~= b@);
    }
    true
}

impl BootstrapDirectory {
    /// An empty directory.
    pub fn new() -> (r: Self)
        ensures
            r@.len() == 0,
    {
        BootstrapDirectory { entries: Vec::new() }
    }

    /// Appends an entry; the directory is append-only.
    pub fn add_entry(&mut self, public_key: Vec<u8>, multiaddrs: Vec<Vec<u8>>)
        ensures
            final(self)@ == old(self)@.push(
                BootstrapEntryView { public_key: public_key@, multiaddrs: multiaddrs.deep_view() },
            ),
    {
        self.entries.push(BootstrapEntry { public_key, multiaddrs });
    }

    /// Whether the directory already carries the given public key.
    pub fn contains_key(&self, public_key: &Vec<u8>) -> (b: bool)
        ensures
            b == directory_has_key(self@, public_key@),
    {
        let mut i: usize = 0;
        while i < self.entries.len()
            invariant
                i <= self.entries.len(),
                self@.len() == self.entries@.len(),
                forall|j: int| 0 <= j < self@.len() ==> self@[j] == self.entries@[j]@,
                forall|j: int| 0 <= j < i ==> self@[j].public_key != public_key@,
            decreases self.entries.len() - i,
        {
            if bytes_eq(&self.entries[i].public_key, public_key) {
                proof {
                    assert(self@[i as int].public_key == public_key@);
                }
                return true;
            }
            i = i + 1;
        }
        false
    }

    /// The housekeeping decision for this node, given its own public key as
    /// reported by the store's identity query.
    pub fn plan_connection(&self, public_key: &Vec<u8>) -> (r: BootstrapPlan)
        ensures
            r@ == bootstrap_plan(self@, public_key@),
    {
        if self.contains_key(public_key) {
            return BootstrapPlan::AlreadyKnown;
        }
        if self.entries.len() == 0 {
            return BootstrapPlan::NothingToTry;
        }
        let first = &self.entries[0];
        let n = first.multiaddrs.len();
        proof {
            assert(self@[0] == self.entries@[0]@);
            assert(self@[0].multiaddrs.len() == first.multiaddrs@.len());
        }
        if n == 0 {
            return BootstrapPlan::NothingToTry;
        }
        let primary = clone_bytes(&first.multiaddrs[n - 1]);
        let fallback = if n >= 2 {
            Some(clone_bytes(&first.multiaddrs[n - 2]))
        } else {
            None
        };
        proof {
            assert(self@[0].multiaddrs[n - 1] == first.multiaddrs@[n - 1]@);
            if n >= 2 {
                assert(self@[0].multiaddrs[n - 2] == first.multiaddrs@[n - 2]@);
            }
        }
        BootstrapPlan::Attempt { primary, fallback }
    }
}

/// Whether a connect attempt came back as anything but a success: a failed
/// attempt is logged and answered with the bounded fallback, never with an
/// error to the caller.
pub fn connect_attempt_failed(outcome: &Result<Response, Error>) -> (b: bool)
    ensures
        b == !(outcome matches Ok(resp) && resp is Success),
{
    !matches!(outcome, Ok(Response::Success))
}

} // verus!
