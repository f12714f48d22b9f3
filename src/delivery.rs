use vstd::prelude::*;

verus! {

/// Most attempts made to publish one result envelope.
pub const MAX_ATTEMPTS: u8 = 3;

/// Pause, in milliseconds, between two attempts to publish.
pub const RETRY_DELAY_MS: u64 = 100;

/// The progress of publishing one result envelope on the delivery channel.
/// An attempt fails when no subscriber is attached.
pub struct Delivery {
    /// Attempts made so far.
    pub attempts: u8,
    /// Whether an attempt reached at least one subscriber.
    pub delivered: bool,
}

/// What to do after an attempt to publish.
pub enum DeliveryAction {
    /// The envelope reached the subscribers; stop.
    Delivered,
    /// Wait this many milliseconds, then attempt again.
    RetryAfter(u64),
    /// Every attempt failed: drop the envelope and record a warning.
    GiveUp,
}

impl Delivery {
    /// Whether no further attempt is to be made.
    pub open spec fn finished(&self) -> bool {
        self.delivered || self.attempts >= MAX_ATTEMPTS
    }

    /// The progress after one more attempt, which reached a subscriber or not.
    pub open spec fn after(self, sent: bool) -> Delivery {
        Delivery { attempts: (self.attempts + 1) as u8, delivered: sent }
    }

    /// Progress before the first attempt.
    pub fn new() -> (r: Delivery)
        ensures
            r.attempts == 0,
            !r.delivered,
    {
        Delivery { attempts: 0, delivered: false }
    }

    /// Records the outcome of one attempt and says what comes next.
    pub fn record(&mut self, sent: bool) -> (r: DeliveryAction)
        requires
            !old(self).finished(),
        ensures
            *final(self) == old(self).after(sent),
            sent ==> r is Delivered,
            !sent && final(self).attempts < MAX_ATTEMPTS ==> r == DeliveryAction::RetryAfter(
                RETRY_DELAY_MS,
            ),
            !sent && final(self).attempts >= MAX_ATTEMPTS ==> r is GiveUp,
    {
        self.attempts = self.attempts + 1;
        self.delivered = sent;
        if sent {
            DeliveryAction::Delivered
        } else if self.attempts < MAX_ATTEMPTS {
            DeliveryAction::RetryAfter(RETRY_DELAY_MS)
        } else {
            DeliveryAction::GiveUp
        }
    }
}

/// The progress reached from `d` when the attempts, for as long as they
/// are made, have the outcomes `outcomes` in turn.
pub open spec fn run(d: Delivery, outcomes: Seq<bool>) -> Delivery
    decreases outcomes.len(),
{
    if d.finished() || outcomes.len() == 0 {
        d
    } else {
        run(d.after(outcomes[0]), outcomes.drop_first())
    }
}

proof fn lemma_run_from(d: Delivery, outcomes: Seq<bool>)
    requires
        !d.delivered,
        d.attempts <= MAX_ATTEMPTS,
        outcomes.len() >= MAX_ATTEMPTS - d.attempts,
    ensures
        run(d, outcomes).delivered <==> exists|i: int|
            0 <= i < MAX_ATTEMPTS - d.attempts && #[trigger] outcomes[i],
        run(d, outcomes).attempts <= MAX_ATTEMPTS,
        run(d, outcomes).attempts >= d.attempts,
        run(d, outcomes).delivered ==> run(d, outcomes).attempts > d.attempts,
        run(d, outcomes).delivered ==> forall|i: int|
            0 <= i < run(d, outcomes).attempts - d.attempts - 1 ==> !#[trigger] outcomes[i],
        run(d, outcomes).delivered ==> outcomes[run(d, outcomes).attempts - d.attempts - 1],
        !run(d, outcomes).delivered ==> run(d, outcomes).attempts == MAX_ATTEMPTS,
    decreases outcomes.len(),
{
    if d.finished() {
    } else {
        let next = d.after(outcomes[0]);
        let rest = outcomes.drop_first();
        if outcomes[0] {
            assert(run(next, rest) == next);
        } else {
            lemma_run_from(next, rest);
            assert forall|i: int| 0 <= i < MAX_ATTEMPTS - next.attempts && rest[i] implies exists|
                j: int,
            | 0 <= j < MAX_ATTEMPTS - d.attempts && #[trigger] outcomes[j] by {
                assert(outcomes[i + 1] == rest[i]);
            }
            assert forall|j: int| 0 <= j < MAX_ATTEMPTS - d.attempts && outcomes[j] implies exists|
                i: int,
            | 0 <= i < MAX_ATTEMPTS - next.attempts && #[trigger] rest[i] by {
                assert(j != 0);
                assert(rest[j - 1] == outcomes[j]);
            }
            if run(next, rest).delivered {
                let k = run(next, rest).attempts - next.attempts - 1;
                assert(outcomes[k + 1] == rest[k]);
                assert forall|i: int|
                    0 <= i < run(d, outcomes).attempts - d.attempts - 1 implies !#[trigger] outcomes[i] by {
                    if i > 0 {
                        assert(outcomes[i] == rest[i - 1]);
                    }
                }
            }
        }
    }
}

/// Retry law: starting afresh, a result is delivered exactly when one of the
/// first `MAX_ATTEMPTS` attempts reaches a subscriber (one that attaches
/// between attempts is reached by the next); it is then delivered by the
/// first such attempt, and none is made after it. When all of them fail no
/// further attempt is made and the result is dropped.
pub proof fn lemma_delivery_retry(outcomes: Seq<bool>)
    requires
        outcomes.len() >= MAX_ATTEMPTS,
    ensures
        ({
            let end = run(Delivery { attempts: 0, delivered: false }, outcomes);
            &&& end.delivered <==> exists|i: int| 0 <= i < MAX_ATTEMPTS && #[trigger] outcomes[i]
            &&& end.attempts <= MAX_ATTEMPTS
            &&& end.delivered ==> outcomes[end.attempts - 1] && forall|i: int|
                0 <= i < end.attempts - 1 ==> !#[trigger] outcomes[i]
            &&& !end.delivered ==> end.attempts == MAX_ATTEMPTS
        }),
{
    lemma_run_from(Delivery { attempts: 0, delivered: false }, outcomes);
}

} // verus!
