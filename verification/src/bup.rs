//! The dispatch loop: accept an event, generate its stream, play it.

use vstd::prelude::*;

use crate::buzzer::Buzzer;
use crate::buzzer::MutBuzzer;
use crate::buzzer::StateBuzzer;
use crate::buzzer::buzzer_run;
use crate::buzzer::lemma_buzzer_run_push;
use crate::error::BupError;
use crate::sink::AudioPlayer;
use crate::sink::sink_may_fail_with;
use crate::source::MutReceiver;
use crate::source::Receiver;
use crate::source::source_ok_through;
use crate::source::source_payload_at;
use crate::source::source_run;

verus! {

/// The dispatch loop: owns one event source and holds one audio sink
/// handle, and on activation repeatedly blocks on the source, hands
/// each payload to a signal generator, and routes the resulting
/// stream to the sink.
///
/// The loop is strictly sequential: event `N + 1` is never accepted
/// before event `N`'s stream has been handed to the sink. It recovers
/// nothing: the first source or sink failure terminates the loop and
/// is surfaced to the caller as the matching [`BupError`] variant.
///
/// Every loop in this crate provably terminates, so an activation is
/// handed an explicit *budget*: the greatest number of events it will
/// dispatch before returning successfully. A caller that wants an
/// activation to run indefinitely passes `usize::MAX`, or re-enters
/// activation whenever it returns; with a stateful generator a
/// re-entered run continues exactly where the previous one stopped.
///
/// The sink is held through a shared reference, so several loop
/// instances may share one device handle; the source is exclusively
/// owned.
pub struct Bup<'a, S, R, O1, E1, A, O2, E2> where
    R: Receiver<O1, E1>,
    A: AudioPlayer<S, O2, E2>,
 {
    /// Socket-like event source, exclusively owned by this loop.
    pub input: R,
    /// Audio output handle, possibly shared with other loops.
    pub output: &'a A,
    /// Carries the type parameters that only the traits mention.
    pub phantom: core::marker::PhantomData<(S, O1, O2, E1, E2)>,
}

impl<'a, S, R, A, O1, O2, E1, E2> Bup<'a, S, R, O1, E1, A, O2, E2> where
    R: Receiver<O1, E1>,
    A: AudioPlayer<S, O2, E2>,
 {
    /// Wrap a ready-to-use event source and audio output handle into
    /// a dispatch loop.
    pub fn new(input: R, output: &'a A) -> (bup: Self)
        ensures
            bup.input == input,
            bup.output == output,
    {
        Self { input, output, phantom: core::marker::PhantomData }
    }

    /// The sink reported success for the stream the generator
    /// produced for the `i`-th dispatched payload (the generator's
    /// state at that point being the fold over the earlier payloads).
    pub open spec fn sink_accepted_at<B: StateBuzzer<O1, S>>(
        self,
        pre_buzzer: B,
        payloads: Seq<O1>,
        i: int,
    ) -> bool {
        exists|o: O2|
            #[trigger] self.output.may_play(
                B::stream(buzzer_run(pre_buzzer, payloads.take(i)), payloads[i]),
                Ok(o),
            )
    }

    /// The sink reported success for each of the first `upto`
    /// dispatched streams.
    pub open spec fn sink_accepted<B: StateBuzzer<O1, S>>(
        self,
        pre_buzzer: B,
        payloads: Seq<O1>,
        upto: int,
    ) -> bool {
        forall|i: int| 0 <= i < upto ==> #[trigger] self.sink_accepted_at(pre_buzzer, payloads, i)
    }

    /// How one activation of this loop with a stateful generator went,
    /// witnessed by the payloads it dispatched: the generator was
    /// taken from `pre_buzzer` to `post_buzzer` by folding its
    /// transition over exactly `payloads`, in arrival order; every
    /// dispatched payload is an outcome the source may produce; and
    /// the result tells how the run ended. On success the whole
    /// `budget` was dispatched and the sink accepted every dispatched
    /// stream; on a source failure the surfaced error is an outcome
    /// the source may produce, the generator never saw the failed
    /// event, and the sink accepted every dispatched stream; on a
    /// sink failure the sink accepted every earlier stream and
    /// rejected the one generated for the last accepted payload.
    pub open spec fn dispatched<B: StateBuzzer<O1, S>>(
        self,
        pre_buzzer: B,
        post_buzzer: B,
        budget: usize,
        payloads: Seq<O1>,
        r: Result<(), BupError<E1, E2>>,
    ) -> bool {
        &&& buzzer_run(pre_buzzer, payloads) == post_buzzer
        &&& forall|i: int|
            0 <= i < payloads.len() ==> self.input.may_produce(Ok(#[trigger] payloads[i]))
        &&& payloads.len() <= budget
        &&& match r {
            Ok(_) => payloads.len() == budget && self.sink_accepted(
                pre_buzzer,
                payloads,
                payloads.len() as int,
            ),
            Err(e) => match e {
                BupError::SourceAcceptFailure(e1) => payloads.len() < budget
                    && self.input.may_produce(Err(e1)) && self.sink_accepted(
                    pre_buzzer,
                    payloads,
                    payloads.len() as int,
                ),
                BupError::SinkPlaybackFailure(e2) => payloads.len() > 0 && self.sink_accepted(
                    pre_buzzer,
                    payloads,
                    payloads.len() - 1,
                ) && self.output.may_play(
                    B::stream(buzzer_run(pre_buzzer, payloads.drop_last()), payloads.last()),
                    Err(e2),
                ),
                BupError::SinkInitializationFailure(_) => false,
            },
        }
    }

    /// Two successive activations with the same generator instance
    /// behave as one: if a first run took the generator from
    /// `first_pre` to `mid` by dispatching `first_payloads`, and a
    /// second run took it from `mid` onwards by dispatching
    /// `second_payloads`, then the generator ends in the state one
    /// single run dispatching their concatenation would reach, and
    /// every event of the combined run is an outcome the source may
    /// produce. A stateful generator's mutations are thus
    /// total-ordered by arrival order across re-entry.
    pub proof fn lemma_runs_compose<B: StateBuzzer<O1, S>>(
        self,
        first_pre: B,
        mid: B,
        second_post: B,
        first_budget: usize,
        second_budget: usize,
        first_payloads: Seq<O1>,
        second_payloads: Seq<O1>,
        first_r: Result<(), BupError<E1, E2>>,
        second_r: Result<(), BupError<E1, E2>>,
    )
        requires
            self.dispatched(first_pre, mid, first_budget, first_payloads, first_r),
            self.dispatched(mid, second_post, second_budget, second_payloads, second_r),
        ensures
            buzzer_run(first_pre, first_payloads + second_payloads) == second_post,
            forall|i: int|
                0 <= i < (first_payloads + second_payloads).len() ==> self.input.may_produce(
                    Ok(#[trigger] (first_payloads + second_payloads)[i]),
                ),
    {
        crate::buzzer::lemma_buzzer_run_append(first_pre, first_payloads, second_payloads);
        assert forall|i: int| 0 <= i < (first_payloads + second_payloads).len() implies self
            .input.may_produce(Ok(#[trigger] (first_payloads + second_payloads)[i])) by {
            if i < first_payloads.len() {
                assert((first_payloads + second_payloads)[i] == first_payloads[i]);
            } else {
                assert((first_payloads + second_payloads)[i] == second_payloads[i
                    - first_payloads.len()]);
            }
        }
    }

    /// Activate the loop with a stateful generator. Blocks and loops
    /// over incoming events, dispatching at most `budget` of them;
    /// the generator is taken through a mutable reference, so the
    /// same instance can be handed to a later activation and continue
    /// from the state this one left it in.
    ///
    /// The contract states fail-fast dispatch in arrival order: a
    /// source error is surfaced without the generator ever seeing the
    /// failed event, and a surfaced error of either kind is an
    /// outcome the failing component may produce. For a modeled
    /// generator some payload sequence witnesses [`Bup::dispatched`]:
    /// the final generator state is the fold of its transition over
    /// exactly the dispatched payloads — no event skipped, reordered
    /// or duplicated.
    #[verifier::loop_isolation(false)]
    pub fn activate_with_state<B: StateBuzzer<O1, S>>(
        &self,
        buzzer: &mut B,
        budget: usize,
    ) -> (r: Result<(), BupError<E1, E2>>)
        requires
            self.input.ready(),
            self.output.ready(),
        ensures
            budget == 0 ==> r is Ok,
            r is Ok && budget > 0 ==> exists|payload: O1|
                #[trigger] self.input.may_produce(Ok(payload)),
            r is Ok && budget > 0 ==> exists|stream: S, o: O2|
                #[trigger] self.output.may_play(stream, Ok(o)),
            r matches Err(e) ==> !(e is SinkInitializationFailure),
            r matches Err(BupError::SourceAcceptFailure(e1)) ==> self.input.may_produce(Err(e1)),
            r matches Err(BupError::SinkPlaybackFailure(e2)) ==> sink_may_fail_with(
                self.output,
                e2,
            ),
            B::modeled() ==> exists|payloads: Seq<O1>|
                #[trigger] self.dispatched(*old(buzzer), *final(buzzer), budget, payloads, r),
    {
        let ghost mut payloads: Seq<O1> = Seq::empty();
        let mut i: usize = 0;
        while i < budget
            invariant
                i <= budget,
                payloads.len() == i,
                B::modeled() ==> *buzzer == buzzer_run(*old(buzzer), payloads),
                B::modeled() ==> self.sink_accepted(*old(buzzer), payloads, payloads.len() as int),
                forall|j: int|
                    0 <= j < payloads.len() ==> self.input.may_produce(Ok(#[trigger] payloads[j])),
                i > 0 ==> exists|payload: O1| #[trigger] self.input.may_produce(Ok(payload)),
                i > 0 ==> exists|stream: S, o: O2| #[trigger] self.output.may_play(stream, Ok(o)),
            decreases budget - i,
        {
            let payload = match self.input.accept() {
                Ok(payload) => payload,
                Err(e1) => {
                    proof {
                        if B::modeled() {
                            assert(self.dispatched(
                                *old(buzzer),
                                *buzzer,
                                budget,
                                payloads,
                                Err::<(), BupError<E1, E2>>(BupError::SourceAcceptFailure(e1)),
                            ));
                        }
                    }
                    return Err(BupError::SourceAcceptFailure(e1));
                },
            };
            let ghost prev_payloads = payloads;
            let ghost pre_buzzer = *buzzer;
            let stream = buzzer.buzz(payload);
            proof {
                if B::modeled() {
                    lemma_buzzer_run_push(*old(buzzer), prev_payloads, payload);
                }
                payloads = payloads.push(payload);
                assert(payloads.drop_last() =~= prev_payloads);
                assert(payloads.last() == payload);
            }
            let ghost gstream = stream;
            let ghost gpayload = payload;
            let played = self.output.play(stream);
            let ghost gplayed = played;
            match played {
                Ok(_) => {
                    proof {
                        assert(self.input.may_produce(Ok(gpayload)));
                        assert(self.output.may_play(gstream, Ok(gplayed->Ok_0)));
                        if B::modeled() {
                            assert forall|k: int| 0 <= k < payloads.len() implies #[trigger] self
                                .sink_accepted_at(*old(buzzer), payloads, k) by {
                                if k < prev_payloads.len() {
                                    assert(payloads.take(k) =~= prev_payloads.take(k));
                                    assert(payloads[k] == prev_payloads[k]);
                                    assert(self.sink_accepted_at(*old(buzzer), prev_payloads, k));
                                } else {
                                    assert(payloads.take(k) =~= prev_payloads);
                                    assert(buzzer_run(*old(buzzer), prev_payloads) == pre_buzzer);
                                    assert(B::stream(pre_buzzer, gpayload) == gstream);
                                    assert(payloads[k] == gpayload);
                                }
                            }
                        }
                    }
                },
                Err(e2) => {
                    proof {
                        assert(self.output.may_play(gstream, Err(e2)));
                        assert(sink_may_fail_with(self.output, e2));
                        if B::modeled() {
                            assert(buzzer_run(*old(buzzer), payloads.drop_last()) == pre_buzzer);
                            assert(B::stream(pre_buzzer, payload) == gstream);
                            assert forall|k: int| 0 <= k < payloads.len() - 1 implies #[trigger] self
                                .sink_accepted_at(*old(buzzer), payloads, k) by {
                                assert(payloads.take(k) =~= prev_payloads.take(k));
                                assert(payloads[k] == prev_payloads[k]);
                                assert(self.sink_accepted_at(*old(buzzer), prev_payloads, k));
                            }
                            assert(self.dispatched(
                                *old(buzzer),
                                *buzzer,
                                budget,
                                payloads,
                                Err::<(), BupError<E1, E2>>(BupError::SinkPlaybackFailure(e2)),
                            ));
                        }
                    }
                    return Err(BupError::SinkPlaybackFailure(e2));
                },
            }
            i = i + 1;
        }
        proof {
            if B::modeled() {
                assert(self.dispatched(
                    *old(buzzer),
                    *buzzer,
                    budget,
                    payloads,
                    Ok::<(), BupError<E1, E2>>(()),
                ));
            }
        }
        Ok(())
    }

    /// Activate the loop with a stateless generator. Blocks and loops
    /// over incoming events, dispatching at most `budget` of them.
    ///
    /// The error variant tells source and sink failures apart: a
    /// surfaced source error is an outcome the source may produce,
    /// and a surfaced sink error arose from playing a stream that the
    /// generator may produce for a payload the source may produce.
    /// Success is owed exactly on an empty budget; with a nonzero
    /// budget a successful return certifies at least one full
    /// dispatch chain: a producible payload whose generated stream
    /// the sink accepted.
    #[verifier::loop_isolation(false)]
    pub fn activate<B: Buzzer<O1, S>>(&self, buzzer: B, budget: usize) -> (r: Result<
        (),
        BupError<E1, E2>,
    >)
        requires
            self.input.ready(),
            self.output.ready(),
        ensures
            budget == 0 ==> r is Ok,
            r is Ok && budget > 0 ==> exists|payload: O1, stream: S, o: O2|
                self.input.may_produce(Ok(payload)) && #[trigger] buzzer.may_buzz(payload, stream)
                    && #[trigger] self.output.may_play(stream, Ok(o)),
            r matches Err(e) ==> !(e is SinkInitializationFailure),
            r matches Err(BupError::SourceAcceptFailure(e1)) ==> self.input.may_produce(Err(e1)),
            r matches Err(BupError::SinkPlaybackFailure(e2)) ==> exists|payload: O1, stream: S|
                self.input.may_produce(Ok(payload)) && #[trigger] buzzer.may_buzz(payload, stream)
                    && self.output.may_play(stream, Err(e2)),
    {
        let mut i: usize = 0;
        while i < budget
            invariant
                i <= budget,
                i > 0 ==> exists|payload: O1, stream: S, o: O2|
                    self.input.may_produce(Ok(payload)) && #[trigger] buzzer.may_buzz(
                        payload,
                        stream,
                    ) && #[trigger] self.output.may_play(stream, Ok(o)),
            decreases budget - i,
        {
            let payload = match self.input.accept() {
                Ok(payload) => payload,
                Err(e1) => {
                    return Err(BupError::SourceAcceptFailure(e1));
                },
            };
            let ghost gpayload = payload;
            let stream = buzzer.buzz(payload);
            let ghost gstream = stream;
            let played = self.output.play(stream);
            let ghost gplayed = played;
            match played {
                Ok(_) => {
                    proof {
                        assert(self.input.may_produce(Ok(gpayload)));
                        assert(buzzer.may_buzz(gpayload, gstream));
                        assert(self.output.may_play(gstream, Ok(gplayed->Ok_0)));
                    }
                },
                Err(e2) => {
                    proof {
                        assert(self.input.may_produce(Ok(gpayload)));
                        assert(buzzer.may_buzz(gpayload, gstream));
                        assert(self.output.may_play(gstream, Err(e2)));
                    }
                    return Err(BupError::SinkPlaybackFailure(e2));
                },
            }
            i = i + 1;
        }
        Ok(())
    }
}

/// The dispatch loop paired with a mutating event source: the source
/// advances internal state on every accepted event, so activation
/// takes the loop through a mutable reference.
///
/// For a modeled source the contract of [`MutBup::activate`] pins a
/// run down step by step: exactly the source's first answers are
/// consumed, in order, up to and including the first failure.
pub struct MutBup<'a, S, R, O1, E1, A, O2, E2> where
    R: MutReceiver<O1, E1>,
    A: AudioPlayer<S, O2, E2>,
 {
    /// Socket-like event source, exclusively owned by this loop.
    pub input: R,
    /// Audio output handle, possibly shared with other loops.
    pub output: &'a A,
    /// Carries the type parameters that only the traits mention.
    pub phantom: core::marker::PhantomData<(S, O1, O2, E1, E2)>,
}

impl<'a, S, R, A, O1, O2, E1, E2> MutBup<'a, S, R, O1, E1, A, O2, E2> where
    R: MutReceiver<O1, E1>,
    A: AudioPlayer<S, O2, E2>,
 {
    /// Wrap a ready-to-use event source and audio output handle into
    /// a dispatch loop.
    pub fn new(input: R, output: &'a A) -> (bup: Self)
        ensures
            bup.input == input,
            bup.output == output,
    {
        Self { input, output, phantom: core::marker::PhantomData }
    }

    /// The sink reported success for some stream the generator may
    /// produce for the payload of step `i`.
    pub open spec fn sink_took_at<B: MutBuzzer<O1, S>>(self, buzzer: B, i: nat) -> bool {
        exists|stream: S, o: O2|
            buzzer.may_buzz(source_payload_at(self.input, i), stream) && #[trigger] self
                .output.may_play(stream, Ok(o))
    }

    /// The sink reported success for each of the first `upto`
    /// dispatched streams.
    pub open spec fn sink_took<B: MutBuzzer<O1, S>>(self, buzzer: B, upto: nat) -> bool {
        forall|i: nat| i < upto ==> #[trigger] self.sink_took_at(buzzer, i)
    }

    /// How one activation of this loop (in its starting state `self`)
    /// went, witnessed by the number `n` of events it accepted: the
    /// source's first `n` answers succeeded and were dispatched in
    /// order, leaving the source in `post_input`, and the result
    /// tells how the run ended. On success `n` is the whole budget,
    /// the source advanced exactly `n` steps, and the sink accepted
    /// every dispatched stream. On a source failure the source's
    /// answer at step `n` is the surfaced error, the source advanced
    /// exactly `n + 1` steps, no later event was consumed, and the
    /// sink accepted every dispatched stream. On a sink failure the
    /// sink accepted the first `n - 1` streams and rejected a stream
    /// the generator may produce for the payload of step `n - 1`, the
    /// last accepted event.
    pub open spec fn consumed<B: MutBuzzer<O1, S>>(
        self,
        post_input: R,
        buzzer: B,
        budget: usize,
        n: nat,
        r: Result<(), BupError<E1, E2>>,
    ) -> bool {
        &&& source_ok_through(self.input, n)
        &&& n <= budget
        &&& match r {
            Ok(_) => n == budget && post_input == source_run(self.input, n) && self.sink_took(
                buzzer,
                n,
            ),
            Err(e) => match e {
                BupError::SourceAcceptFailure(e1) => n < budget && R::outcome(
                    source_run(self.input, n),
                ) == Err::<O1, E1>(e1) && post_input == source_run(self.input, (n + 1) as nat)
                    && self.sink_took(buzzer, n),
                BupError::SinkPlaybackFailure(e2) => 0 < n && post_input == source_run(
                    self.input,
                    n,
                ) && self.sink_took(buzzer, (n - 1) as nat) && exists|stream: S|
                    #[trigger] buzzer.may_buzz(source_payload_at(self.input, (n - 1) as nat), stream)
                        && self.output.may_play(stream, Err(e2)),
                BupError::SinkInitializationFailure(_) => false,
            },
        }
    }

    /// Activate the loop. Blocks and loops over incoming events,
    /// dispatching at most `budget` of them.
    ///
    /// The error variant tells source and sink failures apart, each
    /// carrying an outcome its component may produce. For a modeled
    /// source the contract is exact and fail-fast: some accepted-event
    /// count `n` witnesses [`MutBup::consumed`], so exactly the
    /// source's first answers were dispatched, in order, up to and
    /// including the first failure.
    #[verifier::loop_isolation(false)]
    pub fn activate<B: MutBuzzer<O1, S>>(&mut self, buzzer: B, budget: usize) -> (r: Result<
        (),
        BupError<E1, E2>,
    >)
        requires
            old(self).input.ready(),
            old(self).output.ready(),
        ensures
            final(self).output == old(self).output,
            final(self).input.ready(),
            budget == 0 ==> r is Ok,
            r is Ok && budget > 0 ==> exists|payload: O1, stream: S, o: O2|
                R::may_produce(Ok(payload)) && #[trigger] buzzer.may_buzz(payload, stream)
                    && #[trigger] old(self).output.may_play(stream, Ok(o)),
            r matches Err(e) ==> !(e is SinkInitializationFailure),
            r matches Err(BupError::SourceAcceptFailure(e1)) ==> R::may_produce(Err(e1)),
            r matches Err(BupError::SinkPlaybackFailure(e2)) ==> exists|payload: O1, stream: S|
                R::may_produce(Ok(payload)) && #[trigger] buzzer.may_buzz(payload, stream)
                    && old(self).output.may_play(stream, Err(e2)),
            R::modeled() ==> exists|n: nat|
                #[trigger] old(self).consumed(final(self).input, buzzer, budget, n, r),
    {
        let mut i: usize = 0;
        while i < budget
            invariant
                i <= budget,
                self.input.ready(),
                self.output == old(self).output,
                R::modeled() ==> self.input == source_run(old(self).input, i as nat)
                    && source_ok_through(old(self).input, i as nat),
                R::modeled() ==> old(self).sink_took(buzzer, i as nat),
                i > 0 ==> exists|payload: O1, stream: S, o: O2|
                    R::may_produce(Ok(payload)) && #[trigger] buzzer.may_buzz(payload, stream)
                        && #[trigger] old(self).output.may_play(stream, Ok(o)),
            decreases budget - i,
        {
            let payload = match self.input.accept() {
                Ok(payload) => payload,
                Err(e1) => {
                    proof {
                        if R::modeled() {
                            assert(source_run(old(self).input, (i + 1) as nat) == R::post(
                                source_run(old(self).input, i as nat),
                            ));
                            assert(R::outcome(source_run(old(self).input, i as nat)) == Err::<
                                O1,
                                E1,
                            >(e1));
                            assert(old(self).consumed(
                                self.input,
                                buzzer,
                                budget,
                                i as nat,
                                Err::<(), BupError<E1, E2>>(BupError::SourceAcceptFailure(e1)),
                            ));
                        }
                    }
                    return Err(BupError::SourceAcceptFailure(e1));
                },
            };
            proof {
                if R::modeled() {
                    assert(source_run(old(self).input, (i + 1) as nat) == R::post(
                        source_run(old(self).input, i as nat),
                    ));
                    assert(R::outcome(source_run(old(self).input, i as nat)) == Ok::<O1, E1>(
                        payload,
                    ));
                    assert(forall|j: nat|
                        j < i + 1 ==> (#[trigger] R::outcome(
                            source_run(old(self).input, j),
                        )) is Ok);
                }
            }
            let ghost gpayload = payload;
            let stream = buzzer.buzz(payload);
            let ghost gstream = stream;
            let played = self.output.play(stream);
            let ghost gplayed = played;
            match played {
                Ok(_) => {
                    proof {
                        assert(R::may_produce(Ok(gpayload)));
                        assert(buzzer.may_buzz(gpayload, gstream));
                        assert(old(self).output.may_play(gstream, Ok(gplayed->Ok_0)));
                        if R::modeled() {
                            assert(source_payload_at(old(self).input, i as nat) == gpayload);
                            assert(buzzer.may_buzz(
                                source_payload_at(old(self).input, i as nat),
                                gstream,
                            ));
                            assert(old(self).sink_took_at(buzzer, i as nat));
                            assert forall|j: nat| j < (i + 1) as nat implies #[trigger] old(
                                self,
                            ).sink_took_at(buzzer, j) by {
                                if j < i as nat {
                                    assert(old(self).sink_took(buzzer, i as nat));
                                }
                            }
                        }
                    }
                },
                Err(e2) => {
                    proof {
                        assert(R::may_produce(Ok(gpayload)));
                        assert(buzzer.may_buzz(gpayload, gstream));
                        assert(self.output.may_play(gstream, Err(e2)));
                        if R::modeled() {
                            assert(source_payload_at(old(self).input, i as nat) == gpayload);
                            assert(source_ok_through(old(self).input, (i + 1) as nat));
                            assert(buzzer.may_buzz(
                                source_payload_at(old(self).input, (((i + 1) as nat) - 1) as nat),
                                gstream,
                            ));
                            assert(old(self).sink_took(buzzer, (((i + 1) as nat) - 1) as nat));
                            assert(old(self).consumed(
                                self.input,
                                buzzer,
                                budget,
                                (i + 1) as nat,
                                Err::<(), BupError<E1, E2>>(BupError::SinkPlaybackFailure(e2)),
                            ));
                        }
                    }
                    return Err(BupError::SinkPlaybackFailure(e2));
                },
            }
            i = i + 1;
        }
        proof {
            if R::modeled() {
                assert(old(self).consumed(
                    self.input,
                    buzzer,
                    budget,
                    i as nat,
                    Ok::<(), BupError<E1, E2>>(()),
                ));
            }
        }
        Ok(())
    }
}

} // verus!
