//! The connectivity supervisor's state machine.
//!
//! The supervisor owns an ordered, non-empty list of candidate networks and
//! cycles through them forever: pick the next candidate, attempt a
//! connection, back off on failure, hold the link until it is lost, repeat.
//! The radio itself is an outside collaborator; its driver calls
//! `begin_attempt`, `on_connect_result` and `on_link_lost` to report what
//! actually happened, and this module decides what comes next and keeps the
//! shared connectivity signal truthful.

use vstd::arithmetic::div_mod::{
    lemma_add_mod_noop, lemma_mod_division_less_than_divisor, lemma_mod_multiples_vanish,
    lemma_small_mod,
};
use vstd::prelude::*;

use crate::secure_string::SecureString;
use crate::status::WifiStatus;

verus! {

/// Authentication mode of a candidate network.
#[derive(Clone, Copy, PartialEq, Eq, Structural, Debug)]
pub enum AuthMethod {
    Open,
    Wpa2Personal,
}

/// One candidate network: a loggable identifier, the authentication mode,
/// and the secret key material (never loggable).
#[derive(Clone)]
pub struct WifiNetwork {
    pub ssid: String,
    pub auth_method: AuthMethod,
    pub password: SecureString,
}

/// Where the supervisor stands in its connect cycle.
#[derive(Clone, Copy, PartialEq, Eq, Structural, Debug)]
pub enum LinkPhase {
    Disconnected,
    Connecting,
    Connected,
}

/// How long to back off after a failed connection attempt, in milliseconds.
pub const BACKOFF_MILLIS: u64 = 1000;

/// The supervisor's state: the candidate list, the index of the candidate
/// the next attempt will target, and the link phase. The ghost `attempts`
/// field records the index every attempt so far has targeted, oldest first,
/// so that the round-robin policy is provable.
pub struct Supervisor {
    networks: Vec<WifiNetwork>,
    next_index: usize,
    phase: LinkPhase,
    attempts: Ghost<Seq<int>>,
}

impl Supervisor {
    /// The candidate list, in configured order.
    pub closed spec fn candidates(self) -> Seq<WifiNetwork> {
        self.networks@
    }

    /// How many candidates are configured.
    pub open spec fn candidate_count(self) -> nat {
        self.candidates().len()
    }

    /// The current link phase.
    pub closed spec fn phase_of(self) -> LinkPhase {
        self.phase
    }

    /// The index targeted by each connection attempt begun so far.
    pub closed spec fn attempt_log(self) -> Seq<int> {
        self.attempts@
    }

    /// The candidate the next attempt will target.
    pub closed spec fn next_candidate(self) -> int {
        self.next_index as int
    }

    /// The candidate list is non-empty, the cursor is in range and equals
    /// the number of attempts so far modulo the candidate count, and every
    /// past attempt targeted the candidates strictly round-robin.
    pub open spec fn wf(self) -> bool {
        &&& self.candidate_count() > 0
        &&& self.next_candidate() == self.attempt_log().len() as int % self.candidate_count() as int
        &&& forall|j: int|
            0 <= j < self.attempt_log().len() ==> self.attempt_log()[j] == j % (
            self.candidate_count() as int)
    }

    /// A fresh supervisor: disconnected, about to try the first candidate.
    /// An empty candidate list is a configuration error that must be
    /// rejected at startup, before a supervisor is ever built.
    pub fn new(networks: Vec<WifiNetwork>) -> (s: Self)
        requires
            networks@.len() > 0,
        ensures
            s.wf(),
            s.candidates() == networks@,
            s.phase_of() == LinkPhase::Disconnected,
            s.attempt_log() == Seq::<int>::empty(),
    {
        let s = Supervisor {
            networks,
            next_index: 0,
            phase: LinkPhase::Disconnected,
            attempts: Ghost(Seq::empty()),
        };
        proof {
            lemma_small_mod(0, s.candidate_count());
        }
        s
    }

    /// Read one candidate, so the radio driver can configure the radio with
    /// its identifier, mode and secret.
    pub fn candidate(&self, i: usize) -> (n: &WifiNetwork)
        requires
            i < self.candidate_count(),
        ensures
            *n == self.candidates()[i as int],
    {
        &self.networks[i]
    }

    /// Select the next candidate, advancing the cursor cyclically (wrapping
    /// to the first candidate after the last), and enter `Connecting`. The
    /// caller then drives the radio: force a disconnect if the radio is
    /// already associated (never assume prior state is clean), configure it
    /// with the returned candidate, and attempt to connect.
    pub fn begin_attempt(&mut self) -> (i: usize)
        requires
            old(self).wf(),
            old(self).phase_of() == LinkPhase::Disconnected,
        ensures
            final(self).wf(),
            final(self).candidates() == old(self).candidates(),
            final(self).phase_of() == LinkPhase::Connecting,
            i as int == old(self).next_candidate(),
            i < old(self).candidate_count(),
            final(self).attempt_log() == old(self).attempt_log().push(i as int),
    {
        proof {
            lemma_mod_division_less_than_divisor(
                self.attempt_log().len() as int,
                self.candidate_count() as int,
            );
        }
        let i = self.next_index;
        let n = self.networks.len();
        self.next_index = (i + 1) % n;
        self.phase = LinkPhase::Connecting;
        self.attempts = Ghost(self.attempts@.push(i as int));
        proof {
            let k = old(self).attempt_log().len() as int;
            lemma_add_mod_noop(k, 1, n as int);
            if n == 1 {
                lemma_mod_division_less_than_divisor(k + 1, 1);
                lemma_mod_division_less_than_divisor(i + 1, 1);
            } else {
                lemma_small_mod(1, n as nat);
            }
        }
        i
    }

    /// Record the radio's answer to the attempt begun last. On success the
    /// supervisor holds the link and raises the shared signal; on failure it
    /// lowers the signal and returns to `Disconnected`, and the caller must
    /// sleep for the returned backoff (in milliseconds, zero on success)
    /// before beginning the next attempt.
    pub fn on_connect_result(&mut self, success: bool, status: &mut WifiStatus) -> (backoff: u64)
        requires
            old(self).wf(),
            old(self).phase_of() == LinkPhase::Connecting,
        ensures
            final(self).wf(),
            final(self).candidates() == old(self).candidates(),
            final(self).attempt_log() == old(self).attempt_log(),
            final(self).phase_of() == (if success {
                LinkPhase::Connected
            } else {
                LinkPhase::Disconnected
            }),
            final(status).wf(),
            final(status).connected_now() == success,
            final(status).write_log() == old(status).write_log().push(success),
            backoff == (if success {
                0int
            } else {
                BACKOFF_MILLIS as int
            }),
    {
        if success {
            self.phase = LinkPhase::Connected;
            status.set_connected(true);
            0
        } else {
            self.phase = LinkPhase::Disconnected;
            status.set_connected(false);
            BACKOFF_MILLIS
        }
    }

    /// React to an externally observed link loss: lower the shared signal
    /// (only after the loss is confirmed, never optimistically) and fall
    /// back to `Disconnected`, from where the next candidate is attempted
    /// without extra delay.
    pub fn on_link_lost(&mut self, status: &mut WifiStatus)
        requires
            old(self).wf(),
            old(self).phase_of() == LinkPhase::Connected,
        ensures
            final(self).wf(),
            final(self).candidates() == old(self).candidates(),
            final(self).attempt_log() == old(self).attempt_log(),
            final(self).phase_of() == LinkPhase::Disconnected,
            final(status).wf(),
            !final(status).connected_now(),
            final(status).write_log() == old(status).write_log().push(false),
    {
        self.phase = LinkPhase::Disconnected;
        status.set_connected(false);
    }
}

/// Attempts follow the candidate order cyclically: the j-th attempt ever
/// begun targets candidate j modulo the candidate count, so no candidate is
/// ever skipped.
pub proof fn lemma_attempts_round_robin(s: Supervisor)
    requires
        s.wf(),
    ensures
        forall|j: int|
            0 <= j < s.attempt_log().len() ==> s.attempt_log()[j] == j % (
            s.candidate_count() as int),
{
}

/// No candidate starves: however many attempts have been begun (`k`), each
/// candidate `c` is the target of one of the next `n` attempts, where `n`
/// is the candidate count. Together with `lemma_attempts_round_robin` this
/// says a supervisor that keeps failing eventually re-attempts every
/// candidate, never dropping one permanently after a failure.
pub proof fn lemma_every_candidate_reattempted(k: int, n: int, c: int)
    requires
        n > 0,
        0 <= c < n,
        k >= 0,
    ensures
        exists|j: int| k <= j < k + n && #[trigger] (j % n) == c,
{
    lemma_mod_division_less_than_divisor(k, n);
    let q = k / n;
    let r = k % n;
    vstd::arithmetic::div_mod::lemma_fundamental_div_mod(k, n);
    let j = if r <= c {
        n * q + c
    } else {
        n * (q + 1) + c
    };
    lemma_mod_multiples_vanish(q, c, n);
    lemma_mod_multiples_vanish(q + 1, c, n);
    lemma_small_mod(c as nat, n as nat);
    assert(j % n == c);
    assert(k <= j < k + n) by (nonlinear_arith)
        requires
            j == (if r <= c { n * q + c } else { n * (q + 1) + c }),
            k == q * n + r,
            0 <= r < n,
            0 <= c < n,
    ;
}

} // verus!
