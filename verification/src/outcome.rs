//! Classification of a completed request attempt into success, counted error
//! or ignored error, and the shared error counters the classification feeds.

use vstd::prelude::*;

verus! {

/// Closed set of transport-level failure reasons: the connection could not be
/// established or was abnormally terminated. Classified structurally rather
/// than by error-message text, so the benign bucket does not depend on the
/// networking library's wording.
#[derive(Clone, Copy, Debug, PartialEq, Eq, Structural)]
pub enum TransportFault {
    /// The peer reset an established connection: the designated benign class.
    ConnectionReset,
    /// The connection could not be established.
    ConnectionRefused,
    /// The attempt gave up waiting on the transport.
    TimedOut,
    /// Any other transport-level failure.
    Other,
}

/// The three buckets a completed attempt can fall into.
#[derive(Clone, Copy, Debug, PartialEq, Eq, Structural)]
pub enum OutcomeKind {
    /// Response received with a 2xx status.
    Success,
    /// Non-2xx response, or a transport failure that counts as an error.
    CountedError,
    /// A transport failure of the designated benign class, kept out of the
    /// primary error total.
    IgnoredError,
}

/// What one attempt came back with: either a response with its HTTP status,
/// or a transport failure with its reason.
#[derive(Clone, Copy, Debug, PartialEq, Eq, Structural)]
pub enum AttemptResult {
    Response { status: u16 },
    Transport { fault: TransportFault },
}

/// Only a connection reset is excluded from the counted error total.
pub open spec fn is_benign_spec(f: TransportFault) -> bool {
    f is ConnectionReset
}

pub fn is_benign(f: &TransportFault) -> (r: bool)
    ensures
        r == is_benign_spec(*f),
{
    matches!(f, TransportFault::ConnectionReset)
}

/// Bucket of one attempt: a 2xx response succeeds, any other response is a
/// counted error, a benign transport failure is ignored and every other
/// transport failure is counted.
pub open spec fn classify_spec(r: AttemptResult) -> OutcomeKind {
    match r {
        AttemptResult::Response { status } => if 200 <= status && status <= 299 {
            OutcomeKind::Success
        } else {
            OutcomeKind::CountedError
        },
        AttemptResult::Transport { fault } => if is_benign_spec(fault) {
            OutcomeKind::IgnoredError
        } else {
            OutcomeKind::CountedError
        },
    }
}

pub fn classify(r: &AttemptResult) -> (k: OutcomeKind)
    ensures
        k == classify_spec(*r),
{
    match r {
        AttemptResult::Response { status } => {
            if 200 <= *status && *status <= 299 {
                OutcomeKind::Success
            } else {
                OutcomeKind::CountedError
            }
        },
        AttemptResult::Transport { fault } => {
            if is_benign(fault) {
                OutcomeKind::IgnoredError
            } else {
                OutcomeKind::CountedError
            }
        },
    }
}

/// Number of outcomes in `s` that fall into bucket `k`.
pub open spec fn count_kind(s: Seq<OutcomeKind>, k: OutcomeKind) -> int
    decreases s.len(),
{
    if s.len() == 0 {
        0
    } else {
        count_kind(s.drop_last(), k) + if s.last() == k {
            1int
        } else {
            0int
        }
    }
}

/// A bucket never holds more outcomes than were recorded.
proof fn lemma_count_kind_le_len(s: Seq<OutcomeKind>, k: OutcomeKind)
    ensures
        0 <= count_kind(s, k) <= s.len(),
    decreases s.len(),
{
    if s.len() > 0 {
        lemma_count_kind_le_len(s.drop_last(), k);
    }
}

/// Law: every recorded attempt lands in exactly one bucket, so the three
/// bucket counts always sum to the number of recorded outcomes.
pub proof fn lemma_outcomes_partition(s: Seq<OutcomeKind>)
    ensures
        count_kind(s, OutcomeKind::Success) + count_kind(s, OutcomeKind::CountedError)
            + count_kind(s, OutcomeKind::IgnoredError) == s.len(),
    decreases s.len(),
{
    if s.len() > 0 {
        lemma_outcomes_partition(s.drop_last());
    }
}

/// Error totals, bumped once per classified attempt. The abstract state is
/// the sequence of all recorded outcome kinds; each counter is the size of
/// its bucket.
pub struct ErrorCounters {
    error_count: u64,
    ignored_error_count: u64,
    outcomes: Ghost<Seq<OutcomeKind>>,
}

impl View for ErrorCounters {
    type V = Seq<OutcomeKind>;

    closed spec fn view(&self) -> Seq<OutcomeKind> {
        self.outcomes@
    }
}

impl ErrorCounters {
    /// The counters agree with the recorded outcome sequence.
    pub closed spec fn wf(&self) -> bool {
        &&& self.error_count == count_kind(self@, OutcomeKind::CountedError)
        &&& self.ignored_error_count == count_kind(self@, OutcomeKind::IgnoredError)
    }

    pub fn new() -> (r: Self)
        ensures
            r.wf(),
            r@ == Seq::<OutcomeKind>::empty(),
    {
        ErrorCounters { error_count: 0, ignored_error_count: 0, outcomes: Ghost(Seq::empty()) }
    }

    /// Record one classified attempt: a counted error bumps the primary
    /// total, an ignored error the separate benign total, a success neither.
    pub fn record(&mut self, k: OutcomeKind)
        requires
            old(self).wf(),
            old(self)@.len() < u64::MAX,
        ensures
            final(self).wf(),
            final(self)@ == old(self)@.push(k),
    {
        let ghost s = self.outcomes@;
        proof {
            lemma_count_kind_le_len(s, OutcomeKind::CountedError);
            lemma_count_kind_le_len(s, OutcomeKind::IgnoredError);
        }
        match k {
            OutcomeKind::CountedError => {
                self.error_count = self.error_count + 1;
            },
            OutcomeKind::IgnoredError => {
                self.ignored_error_count = self.ignored_error_count + 1;
            },
            OutcomeKind::Success => {},
        }
        self.outcomes = Ghost(s.push(k));
        proof {
            assert(s.push(k).drop_last() =~= s);
        }
    }

    pub fn get_error_count(&self) -> (r: u64)
        requires
            self.wf(),
        ensures
            r == count_kind(self@, OutcomeKind::CountedError),
    {
        self.error_count
    }

    pub fn get_ignored_error_count(&self) -> (r: u64)
        requires
            self.wf(),
        ensures
            r == count_kind(self@, OutcomeKind::IgnoredError),
    {
        self.ignored_error_count
    }
}

} // verus!
