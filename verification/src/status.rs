//! A shared boolean connectivity signal.
//!
//! The supervisor is the only writer; any number of periodic workers read
//! the signal to gate their work. The signal is a level, not an edge: a
//! reader that observes `true` learns only that the link was up at that
//! moment, never that it still is.

use vstd::prelude::*;

verus! {

/// The value the signal holds after a sequence of writes: `false` at
/// creation, thereafter the last value written.
pub open spec fn signal_value(writes: Seq<bool>) -> bool {
    if writes.len() == 0 {
        false
    } else {
        writes.last()
    }
}

/// The connectivity signal itself. Created once at startup holding `false`;
/// written only by the connectivity supervisor; polled by workers.
///
/// The ghost `writes` field records every value ever written, so that what a
/// reader can conclude from an observation is provable.
pub struct WifiStatus {
    connected: bool,
    writes: Ghost<Seq<bool>>,
}

impl WifiStatus {
    /// The value the signal currently holds.
    pub closed spec fn connected_now(self) -> bool {
        self.connected
    }

    /// Every value ever written to the signal, oldest first.
    pub closed spec fn write_log(self) -> Seq<bool> {
        self.writes@
    }

    /// The held value is always the one the write log dictates.
    pub open spec fn wf(self) -> bool {
        self.connected_now() == signal_value(self.write_log())
    }

    /// A fresh signal: no writes yet, so it reads `false`.
    pub fn new() -> (s: Self)
        ensures
            s.wf(),
            s.write_log() == Seq::<bool>::empty(),
            !s.connected_now(),
    {
        WifiStatus { connected: false, writes: Ghost(Seq::empty()) }
    }

    /// Overwrite the signal. Cannot fail; idempotent in value.
    pub fn set_connected(&mut self, connected: bool)
        ensures
            final(self).wf(),
            final(self).connected_now() == connected,
            final(self).write_log() == old(self).write_log().push(connected),
    {
        self.connected = connected;
        self.writes = Ghost(self.writes@.push(connected));
    }

    /// One poll of the signal, the body of a worker's wait loop. A worker
    /// waiting for connectivity re-polls (after a bounded pause, supplied by
    /// its runtime) until this returns `true`.
    pub fn is_connected(&self) -> (r: bool)
        ensures
            r == self.connected_now(),
    {
        self.connected
    }
}

/// A wait on the signal returns only once a poll has observed `true`; this
/// lemma shows that such an observation is possible only after `true` has
/// been written at least once. A wait therefore never returns before
/// `set_connected(true)` has been called.
pub proof fn lemma_observed_true_implies_set_true(s: WifiStatus)
    requires
        s.wf(),
        s.connected_now(),
    ensures
        exists|i: int| 0 <= i < s.write_log().len() && s.write_log()[i] == true,
{
    let log = s.write_log();
    assert(log[log.len() - 1] == true);
}

/// Writing `false` and then immediately `true` leaves the signal reading
/// `true`, whatever was written before: the very first poll of a wait that
/// starts after such a pair of writes observes `true`, so the wait returns
/// at once rather than deadlocking.
pub proof fn lemma_wait_after_reset(writes: Seq<bool>)
    ensures
        signal_value(writes.push(false).push(true)),
{
}

} // verus!
