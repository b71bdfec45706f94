//! Event sources: capabilities that block until an event arrives.

use vstd::prelude::*;
use vstd::pervasive::arbitrary;

verus! {

/// A structure, usually a socket, that can block until an external
/// event arrives and hand back a payload built out of it.
///
/// `accept` blocks the calling thread indefinitely until an event is
/// available or the underlying transport fails; it never returns
/// without either a payload or an error. One call consumes exactly
/// one pending event; any buffering of further events is the
/// transport's own.
///
/// Each implementation describes itself to the verifier through two
/// spec functions: `ready`, the condition under which `accept` may be
/// invoked (a bound socket is simply always ready), and
/// `may_produce`, the set of outcomes a call can possibly deliver.
/// The dispatch loop's contracts speak of both: every payload it
/// feeds to a generator, and every source error it surfaces, is an
/// outcome this instance may produce.
pub trait Receiver<O, E> {
    /// When `accept` may be invoked on this instance. A source built
    /// around a shared reference never changes, so readiness is
    /// stable across calls. Unrestricted unless overridden.
    open spec fn ready(&self) -> bool {
        true
    }

    /// Which outcomes a call on this instance can possibly deliver.
    /// Unrestricted unless overridden.
    open spec fn may_produce(&self, r: Result<O, E>) -> bool {
        true
    }

    /// Block until one event is available, then yield its payload, or
    /// fail with the source's native error.
    fn accept(&self) -> (r: Result<O, E>)
        requires
            self.ready(),
        ensures
            self.may_produce(r),
    ;
}

/// The mutating form of [`Receiver`]: a source that advances internal
/// state on every call, such as one that replays a recorded script of
/// events or counts what it has delivered.
///
/// Beyond the possible-outcome set `may_produce` (here a property of
/// the source type, so that it keeps its meaning while the instance
/// mutates), an implementation may declare itself *modeled*: then
/// `post` and `outcome` describe one call exactly, and the dispatch
/// loop's contract pins down, step by step, which events were
/// consumed and in what order.
pub trait MutReceiver<O, E> where Self: Sized {
    /// When `accept` may be invoked; every call preserves it.
    /// Unrestricted unless overridden.
    open spec fn ready(&self) -> bool {
        true
    }

    /// Which outcomes this kind of source can ever deliver.
    /// Unrestricted unless overridden.
    open spec fn may_produce(r: Result<O, E>) -> bool {
        true
    }

    /// Whether `post` and `outcome` describe `accept` exactly. A
    /// source whose outcomes depend on anything beyond its own state
    /// leaves the default `false` and is constrained by `may_produce`
    /// alone.
    open spec fn modeled() -> bool {
        false
    }

    /// The state an instance is left in by one call. Meaningful only
    /// for a modeled source.
    open spec fn post(pre: Self) -> Self {
        pre
    }

    /// The outcome one call on the given state delivers. Meaningful
    /// only for a modeled source.
    open spec fn outcome(pre: Self) -> Result<O, E> {
        arbitrary()
    }

    /// Block until one event is available, then yield its payload, or
    /// fail with the source's native error.
    fn accept(&mut self) -> (r: Result<O, E>)
        requires
            old(self).ready(),
        ensures
            final(self).ready(),
            Self::may_produce(r),
            Self::modeled() ==> *final(self) == Self::post(*old(self)) && r == Self::outcome(
                *old(self),
            ),
    ;
}

/// The state a modeled [`MutReceiver`] reaches after `n` calls.
pub open spec fn source_run<O, E, R: MutReceiver<O, E>>(source: R, n: nat) -> R
    decreases n,
{
    if n == 0 {
        source
    } else {
        R::post(source_run(source, (n - 1) as nat))
    }
}

/// Whether the first `n` calls on a modeled [`MutReceiver`] started in
/// state `source` all succeed.
pub open spec fn source_ok_through<O, E, R: MutReceiver<O, E>>(source: R, n: nat) -> bool {
    forall|i: nat| i < n ==> (#[trigger] R::outcome(source_run(source, i))) is Ok
}

/// The payload the `i`-th call (counting from zero) on a modeled
/// [`MutReceiver`] started in state `source` delivers, when it
/// succeeds.
pub open spec fn source_payload_at<O, E, R: MutReceiver<O, E>>(source: R, i: nat) -> O {
    R::outcome(source_run(source, i))->Ok_0
}

/// Any blocking nullary function is an event source: calling it is
/// accepting. This is the escape hatch for custom transports.
impl<O, E, F: Fn() -> Result<O, E>> Receiver<O, E> for F {
    /// The closure's own precondition, on no arguments.
    open spec fn ready(&self) -> bool {
        call_requires(*self, ())
    }

    /// Exactly the outcomes the closure's postcondition admits.
    open spec fn may_produce(&self, r: Result<O, E>) -> bool {
        call_ensures(*self, (), r)
    }

    fn accept(&self) -> (r: Result<O, E>) {
        (*self)()
    }
}

} // verus!
