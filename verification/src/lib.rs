//! A connection-triggered signal-generation framework.
//!
//! The crate is built around three capability abstractions: an event
//! source that blocks until something arrives ([`Receiver`] /
//! [`MutReceiver`]), a signal generator that turns each event payload
//! into an audio-sample stream ([`Buzzer`], [`StateBuzzer`],
//! [`MutBuzzer`]), and an audio sink that routes a stream to a device
//! ([`AudioPlayer`]). A dispatch loop ([`Bup`] / [`MutBup`]) owns one
//! source and one sink and repeatedly accepts an event, generates its
//! stream, and plays it, until the first failure, which it surfaces
//! through the unified [`BupError`] taxonomy.
//!
//! Every loop in the crate provably terminates, so an activation is
//! handed an explicit budget of events; the contracts of the loops
//! pin down, over the models that sources and generators may declare,
//! exactly which events a run dispatched, in what order, and how it
//! ended.

mod bup;
mod buzzer;
mod error;
mod sink;
mod source;

pub use bup::Bup;
pub use bup::MutBup;
pub use buzzer::Buzzer;
pub use buzzer::MutBuzzer;
pub use buzzer::StateBuzzer;
pub use buzzer::buzzer_run;
pub use buzzer::lemma_buzzer_run_append;
pub use buzzer::lemma_buzzer_run_push;
pub use error::BupError;
pub use sink::AudioPlayer;
pub use sink::sink_may_fail_with;
pub use source::MutReceiver;
pub use source::Receiver;
pub use source::source_ok_through;
pub use source::source_payload_at;
pub use source::source_run;
