//! Offence intake: receives offender reports from the external detection
//! subsystem and marks the offenders for removal at the next session
//! boundary.

use vstd::prelude::*;

use crate::errors::Error;
use crate::registry::{mark_offenders, ValidatorRegistry};
use crate::ValidatorId;

verus! {

impl ValidatorRegistry {
    /// Marks every offender in the report for removal at the next session
    /// boundary.  Reports are never rejected; an id may be marked more than
    /// once, which the boundary application tolerates.  The reporters are
    /// noted but play no further part here.
    pub fn report_offence(
        &mut self,
        reporters: &Vec<ValidatorId>,
        offenders: &Vec<ValidatorId>,
    ) -> (r: Result<(), Error>)
        requires
            old(self)@.wf(),
        ensures
            final(self)@.wf(),
            r == Ok::<(), Error>(()),
            final(self)@ == mark_offenders(old(self)@, offenders@),
    {
        let mut i: usize = 0;
        while i < offenders.len()
            invariant
                i <= offenders.len(),
                self@.wf(),
                self@ == mark_offenders(old(self)@, offenders@.take(i as int)),
            decreases offenders.len() - i,
        {
            proof {
                assert(old(self)@.offline + offenders@.take(i as int + 1) =~= (old(self)@.offline
                    + offenders@.take(i as int)).push(offenders@[i as int]));
            }
            self.mark_for_removal(offenders[i]);
            i = i + 1;
        }
        proof {
            assert(offenders@.take(offenders@.len() as int) =~= offenders@);
        }
        Ok(())
    }

    /// Whether this offence instance is already known.  No de-duplication of
    /// offence instances happens in this design, so the answer is always no;
    /// this is a stated limitation, not an oversight.
    pub fn is_known_offence(
        &self,
        offenders: &Vec<ValidatorId>,
        time_slot: u32,
    ) -> (r: bool)
        ensures
            !r,
    {
        false
    }
}

} // verus!
