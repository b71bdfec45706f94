//! Signal generators: transforms from an event payload to a stream.

use vstd::prelude::*;
use vstd::pervasive::arbitrary;

verus! {

/// A stateless signal generator: it turns each incoming payload into
/// an audio-sample stream and keeps no memory across events. To carry
/// information from one beep to the next, use [`StateBuzzer`].
///
/// `buzz` has no precondition: a generator must produce *some* stream
/// for every payload its source can deliver. Rejecting an event is
/// expressed as returning an immediately empty stream, never as a
/// failure.
///
/// `may_buzz` names the set of streams a payload can possibly yield;
/// the dispatch loop's contracts use it to trace every stream the
/// sink receives back to a payload of the source.
pub trait Buzzer<O, S> {
    /// Which streams this generator can possibly produce for a
    /// payload. Unrestricted unless overridden.
    open spec fn may_buzz(&self, incoming: O, stream: S) -> bool {
        true
    }

    /// Generate a sample stream out of one incoming event's payload.
    fn buzz(&self, incoming: O) -> (stream: S)
        ensures
            self.may_buzz(incoming, stream),
    ;
}

/// A [`Buzzer`] with a state: successive calls on one instance
/// observe the cumulative effect of all prior calls, in call order.
///
/// As with [`Buzzer`], `buzz` has no precondition: a stateful
/// generator too must accept every payload in every state.
///
/// An implementation may declare itself *modeled*: then `post` and
/// `stream` describe one call exactly, and the dispatch loop's
/// contract states that after a run the generator's state is the fold
/// of `post` over the accepted payloads in arrival order — no event
/// skipped, reordered or duplicated.
pub trait StateBuzzer<O, S> where Self: Sized {
    /// Whether `post` and `stream` describe `buzz` exactly.
    open spec fn modeled() -> bool {
        false
    }

    /// The state an instance is left in by one call. Meaningful only
    /// for a modeled generator.
    open spec fn post(pre: Self, incoming: O) -> Self {
        pre
    }

    /// The stream one call on the given state produces. Meaningful
    /// only for a modeled generator.
    open spec fn stream(pre: Self, incoming: O) -> S {
        arbitrary()
    }

    /// Generate a sample stream out of one incoming event's payload,
    /// reading and updating the generator's own state.
    fn buzz(&mut self, incoming: O) -> (stream: S)
        ensures
            Self::modeled() ==> *final(self) == Self::post(*old(self), incoming) && stream
                == Self::stream(*old(self), incoming),
    ;
}

/// The stateless generator form used together with [`MutReceiver`]
/// sources: identical in contract to [`Buzzer`].
pub trait MutBuzzer<O, S> {
    /// Which streams this generator can possibly produce for a
    /// payload. Unrestricted unless overridden.
    open spec fn may_buzz(&self, incoming: O, stream: S) -> bool {
        true
    }

    /// Generate a sample stream out of one incoming event's payload.
    fn buzz(&self, incoming: O) -> (stream: S)
        ensures
            self.may_buzz(incoming, stream),
    ;
}

/// The state a modeled [`StateBuzzer`] reaches after processing the
/// given payloads in order.
pub open spec fn buzzer_run<O, S, B: StateBuzzer<O, S>>(buzzer: B, payloads: Seq<O>) -> B
    decreases payloads.len(),
{
    if payloads.len() == 0 {
        buzzer
    } else {
        B::post(buzzer_run(buzzer, payloads.drop_last()), payloads.last())
    }
}

/// Processing one more payload advances the fold by one step.
pub proof fn lemma_buzzer_run_push<O, S, B: StateBuzzer<O, S>>(
    buzzer: B,
    payloads: Seq<O>,
    incoming: O,
)
    ensures
        buzzer_run(buzzer, payloads.push(incoming)) == B::post(
            buzzer_run(buzzer, payloads),
            incoming,
        ),
{
    assert(payloads.push(incoming).drop_last() =~= payloads);
    assert(payloads.push(incoming).last() == incoming);
}

/// Sequential composition of runs: feeding a generator two batches of
/// events one after the other leaves it in the same state as feeding
/// it their concatenation in one run. This is what makes re-entering
/// a dispatch loop with the same generator instance cumulative: the
/// second run continues exactly where the first one stopped.
pub proof fn lemma_buzzer_run_append<O, S, B: StateBuzzer<O, S>>(
    buzzer: B,
    first: Seq<O>,
    second: Seq<O>,
)
    ensures
        buzzer_run(buzzer, first + second) == buzzer_run(buzzer_run(buzzer, first), second),
    decreases second.len(),
{
    if second.len() == 0 {
        assert(first + second =~= first);
    } else {
        lemma_buzzer_run_append(buzzer, first, second.drop_last());
        assert((first + second).drop_last() =~= first + second.drop_last());
        assert((first + second).last() == second.last());
    }
}

} // verus!
