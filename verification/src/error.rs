//! The unified error taxonomy of the dispatch loop.

use vstd::prelude::*;

verus! {

/// The one error type a dispatch loop surfaces, whatever concrete
/// event source or audio sink is plugged in.
///
/// Every failure channel of the loop converts into exactly one variant
/// of this closed sum, and each variant carries the collaborator's
/// native error so no information is lost at the boundary.
#[derive(Debug, PartialEq, Eq)]
pub enum BupError<E1, E2> {
    /// The event source failed to produce an event (transport closed,
    /// binding lost, an OS-level I/O error, ...).
    SourceAcceptFailure(E1),
    /// The audio sink failed to begin or to complete playback (device
    /// unavailable, unsupported format, device lost mid-stream, ...).
    SinkPlaybackFailure(E2),
    /// The sink's own setup failed. The loop itself never produces
    /// this variant; it exists for collaborators that construct sinks
    /// and want to report through the same taxonomy.
    SinkInitializationFailure(E2),
}

impl<E1, E2> BupError<E1, E2> {
    /// Whether this error reports a failure of the event source.
    pub fn is_source_failure(&self) -> (r: bool)
        ensures
            r == (self is SourceAcceptFailure),
    {
        match self {
            BupError::SourceAcceptFailure(_) => true,
            _ => false,
        }
    }

    /// Whether this error reports a failure of the audio sink, either
    /// during playback or during its setup.
    pub fn is_sink_failure(&self) -> (r: bool)
        ensures
            r == (self is SinkPlaybackFailure || self is SinkInitializationFailure),
    {
        match self {
            BupError::SinkPlaybackFailure(_) => true,
            BupError::SinkInitializationFailure(_) => true,
            _ => false,
        }
    }
}

} // verus!
