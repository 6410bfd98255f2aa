//! What a call is told about its surroundings.

use crate::address::Address;
use vstd::prelude::*;

verus! {

/// The surroundings of one call: the time on the ledger, and the parties that
/// have given their consent to the call.
///
/// The campaign holds no clock and checks no signature. Whoever hosts it
/// reads the clock, settles who stands behind the call, and says so here.
#[derive(Debug)]
pub struct Env {
    timestamp: u64,
    signers: Vec<Address>,
}

/// The mathematical content of an [`Env`].
pub struct EnvView {
    pub timestamp: u64,
    pub signers: Set<Seq<char>>,
}

impl View for Env {
    type V = EnvView;

    closed spec fn view(&self) -> EnvView {
        EnvView {
            timestamp: self.timestamp,
            signers: Set::new(
                |who: Seq<char>|
                    exists|i: int| 0 <= i < self.signers@.len() && (#[trigger] self.signers@[i])@ == who,
            ),
        }
    }
}

impl Clone for Env {
    fn clone(&self) -> (copy: Env)
        ensures
            copy@ == self@,
    {
        let signers = self.signers.clone();
        assert(signers@ =~= self.signers@);
        let copy = Env { timestamp: self.timestamp, signers };
        assert(copy@.signers =~= self@.signers);
        copy
    }
}

impl Env {
    /// The surroundings at time `timestamp`, with no consent given.
    pub fn new(timestamp: u64) -> (env: Env)
        ensures
            env@ == (EnvView { timestamp, signers: Set::empty() }),
    {
        let env = Env { timestamp, signers: Vec::new() };
        assert(env@.signers =~= Set::empty());
        env
    }

    /// The time on the ledger.
    pub fn timestamp(&self) -> (timestamp: u64)
        ensures
            timestamp == self@.timestamp,
    {
        self.timestamp
    }

    /// Moves the clock to `timestamp`.
    pub fn set_timestamp(&mut self, timestamp: u64)
        ensures
            final(self)@ == (EnvView { timestamp, signers: old(self)@.signers }),
    {
        self.timestamp = timestamp;
        assert(self@.signers =~= old(self)@.signers);
    }

    /// Records that `who` has given consent to the call.
    pub fn authorize(&mut self, who: &Address)
        ensures
            final(self)@ == (EnvView {
                timestamp: old(self)@.timestamp,
                signers: old(self)@.signers.insert(who@),
            }),
    {
        self.signers.push(who.clone());
        proof {
            let n = old(self).signers@.len() as int;
            assert(self.signers@[n]@ == who@);
            assert forall|id: Seq<char>| self@.signers.contains(id) implies old(
                self,
            )@.signers.insert(who@).contains(id) by {
                let i = choose|i: int| 0 <= i < self.signers@.len() && (#[trigger] self.signers@[i])@ == id;
                if i < n {
                    assert(old(self).signers@[i]@ == id);
                }
            }
            assert forall|id: Seq<char>| old(self)@.signers.insert(who@).contains(
                id,
            ) implies self@.signers.contains(id) by {
                if id != who@ {
                    let i = choose|i: int| 0 <= i < n && (#[trigger] old(self).signers@[i])@ == id;
                    assert(self.signers@[i]@ == id);
                }
            }
            assert(self@.signers =~= old(self)@.signers.insert(who@));
        }
    }

    /// Whether `who` has given consent to the call.
    pub fn authorized(&self, who: &Address) -> (yes: bool)
        ensures
            yes == self@.signers.contains(who@),
    {
        let mut i: usize = 0;
        while i < self.signers.len()
            invariant
                i <= self.signers.len(),
                forall|k: int| 0 <= k < i ==> (#[trigger] self.signers@[k])@ != who@,
            decreases self.signers.len() - i,
        {
            if self.signers[i] == *who {
                return true;
            }
            i += 1;
        }
        false
    }
}

} // verus!
