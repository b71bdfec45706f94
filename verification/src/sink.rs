//! Audio sinks: capabilities that route a sample stream to a device.

use vstd::prelude::*;

verus! {

/// A capability that accepts an audio-sample stream and performs
/// playback.
///
/// Two disciplines are valid implementations of this one interface:
/// *enqueue-and-return*, where the call hands the stream to an
/// independently running rendering engine and returns as soon as it
/// is registered (the stream may be endless), and
/// *render-to-completion*, where the call blocks until the stream is
/// exhausted (which requires it to be finite). The dispatch loop is
/// agnostic to the choice; it changes only when the next event is
/// accepted, never which events are accepted.
///
/// A sink handle is used through a shared reference, so one device
/// handle may serve several dispatch loop instances at once; its
/// readiness and its possible outcomes are therefore stable
/// properties of the instance.
pub trait AudioPlayer<S, O, E> {
    /// When `play` may be invoked on this handle: the device behind
    /// it is open and usable. Unrestricted unless overridden.
    open spec fn ready(&self) -> bool {
        true
    }

    /// Which outcomes playing a given stream on this handle can
    /// possibly deliver. Unrestricted unless overridden.
    open spec fn may_play(&self, stream: S, r: Result<O, E>) -> bool {
        true
    }

    /// Play audio from a stream, following whichever discipline the
    /// implementation chose, and report success or the sink's native
    /// error.
    fn play(&self, stream: S) -> (r: Result<O, E>)
        requires
            self.ready(),
        ensures
            self.may_play(stream, r),
    ;
}

/// Whether the sink can report the error `e` when handed some stream:
/// the dispatch loop surfaces a playback failure only when this
/// holds of it.
pub open spec fn sink_may_fail_with<S, O, E, A: AudioPlayer<S, O, E>>(sink: &A, e: E) -> bool {
    exists|stream: S| #[trigger] sink.may_play(stream, Err(e))
}

} // verus!
