//! Fail-fast behaviour and the unified error taxonomy.

use std::cell::Cell;
use std::cell::RefCell;

use bup::AudioPlayer;
use bup::Bup;
use bup::BupError;
use bup::Buzzer;
use bup::MutBup;
use bup::MutBuzzer;
use bup::MutReceiver;

/// Yields the scripted payloads in order, then fails with `code`.
struct ScriptedSource {
    items: Vec<u64>,
    idx: usize,
    code: u32,
}

impl MutReceiver<u64, u32> for ScriptedSource {
    fn accept(&mut self) -> Result<u64, u32> {
        if self.idx < self.items.len() {
            self.idx += 1;
            Ok(self.items[self.idx - 1])
        } else {
            Err(self.code)
        }
    }
}

/// Counts its calls; maps payload `n` to `n` zero-valued samples. A
/// payload of zero is the sentinel for an immediately empty stream.
struct CountingBuzz {
    calls: Cell<u32>,
}

impl MutBuzzer<u64, Vec<f32>> for CountingBuzz {
    fn buzz(&self, incoming: u64) -> Vec<f32> {
        self.calls.set(self.calls.get() + 1);
        vec![0.0f32; incoming as usize]
    }
}

/// Lets a test keep the counter while the loop owns the borrow.
impl MutBuzzer<u64, Vec<f32>> for &CountingBuzz {
    fn buzz(&self, incoming: u64) -> Vec<f32> {
        self.calls.set(self.calls.get() + 1);
        vec![0.0f32; incoming as usize]
    }
}

/// Counts its calls and records stream lengths; never fails.
struct CountingSink {
    calls: Cell<u32>,
    lengths: RefCell<Vec<usize>>,
}

impl AudioPlayer<Vec<f32>, (), u32> for CountingSink {
    fn play(&self, stream: Vec<f32>) -> Result<(), u32> {
        self.calls.set(self.calls.get() + 1);
        self.lengths.borrow_mut().push(stream.len());
        Ok(())
    }
}

/// Fails every playback with `code`, counting its calls.
struct FailingSink {
    calls: Cell<u32>,
    code: u32,
}

impl AudioPlayer<Vec<f32>, (), u32> for FailingSink {
    fn play(&self, _stream: Vec<f32>) -> Result<(), u32> {
        self.calls.set(self.calls.get() + 1);
        Err(self.code)
    }
}

#[test]
fn fail_fast_skips_generator_and_sink_for_failed_event() {
    let source = ScriptedSource { items: vec![10, 20], idx: 0, code: 99 };
    let buzzer = CountingBuzz { calls: Cell::new(0) };
    let sink = CountingSink { calls: Cell::new(0), lengths: RefCell::new(Vec::new()) };
    let mut looper = MutBup::new(source, &sink);
    let r = looper.activate(&buzzer, 100);
    assert_eq!(r, Err(BupError::SourceAcceptFailure(99)));
    // the two successful events were dispatched, the failed third was not
    assert_eq!(buzzer.calls.get(), 2);
    assert_eq!(sink.calls.get(), 2);
    assert_eq!(*sink.lengths.borrow(), vec![10, 20]);
}

#[test]
fn empty_sentinel_stream_plays_normally() {
    let source = ScriptedSource { items: vec![0, 5], idx: 0, code: 99 };
    let buzzer = CountingBuzz { calls: Cell::new(0) };
    let sink = CountingSink { calls: Cell::new(0), lengths: RefCell::new(Vec::new()) };
    let mut looper = MutBup::new(source, &sink);
    let r = looper.activate(&buzzer, 100);
    assert_eq!(r, Err(BupError::SourceAcceptFailure(99)));
    assert_eq!(*sink.lengths.borrow(), vec![0, 5]);
}

#[test]
fn sink_failure_stops_the_loop_at_the_first_event() {
    let source = ScriptedSource { items: vec![10, 20, 30], idx: 0, code: 99 };
    let buzzer = CountingBuzz { calls: Cell::new(0) };
    let sink = FailingSink { calls: Cell::new(0), code: 55 };
    let mut looper = MutBup::new(source, &sink);
    let r = looper.activate(&buzzer, 100);
    assert_eq!(r, Err(BupError::SinkPlaybackFailure(55)));
    // only the first event was accepted and played
    assert_eq!(buzzer.calls.get(), 1);
    assert_eq!(sink.calls.get(), 1);
    assert_eq!(looper.input.idx, 1);
}

#[test]
fn source_and_sink_failures_are_distinguishable() {
    let source = ScriptedSource { items: vec![], idx: 0, code: 1 };
    let sink = CountingSink { calls: Cell::new(0), lengths: RefCell::new(Vec::new()) };
    let mut looper = MutBup::new(source, &sink);
    let source_err = looper.activate(&CountingBuzz { calls: Cell::new(0) }, 100).unwrap_err();

    let source2 = ScriptedSource { items: vec![10], idx: 0, code: 1 };
    let failing = FailingSink { calls: Cell::new(0), code: 1 };
    let mut looper2 = MutBup::new(source2, &failing);
    let sink_err = looper2.activate(&CountingBuzz { calls: Cell::new(0) }, 100).unwrap_err();

    assert!(source_err.is_source_failure());
    assert!(!source_err.is_sink_failure());
    assert!(sink_err.is_sink_failure());
    assert!(!sink_err.is_source_failure());
    assert_ne!(source_err, sink_err);
    assert!(matches!(source_err, BupError::SourceAcceptFailure(1)));
    assert!(matches!(sink_err, BupError::SinkPlaybackFailure(1)));
}

#[test]
fn initialization_failure_is_a_sink_failure() {
    let e: BupError<u32, u32> = BupError::SinkInitializationFailure(3);
    assert!(e.is_sink_failure());
    assert!(!e.is_source_failure());
}

/// A plain function value with no state is a source: the escape
/// hatch for custom transports.
#[test]
fn closure_source_error_is_surfaced() {
    let source = || -> Result<u64, u32> { Err(5) };
    let sink = CountingSink { calls: Cell::new(0), lengths: RefCell::new(Vec::new()) };
    let looper = Bup::new(source, &sink);
    let r = looper.activate(LenOneBuzz, 100);
    assert_eq!(r, Err(BupError::SourceAcceptFailure(5)));
    assert_eq!(sink.calls.get(), 0);
}

/// Stateless generator: one sample per event.
struct LenOneBuzz;

impl Buzzer<u64, Vec<f32>> for LenOneBuzz {
    fn buzz(&self, incoming: u64) -> Vec<f32> {
        vec![incoming as f32]
    }
}

#[test]
fn closure_source_payloads_reach_the_sink() {
    let calls = Cell::new(0u32);
    let source = move || -> Result<u64, u32> {
        let c = calls.get();
        calls.set(c + 1);
        if c < 2 { Ok(c as u64) } else { Err(5) }
    };
    let sink = CountingSink { calls: Cell::new(0), lengths: RefCell::new(Vec::new()) };
    let looper = Bup::new(source, &sink);
    let r = looper.activate(LenOneBuzz, 100);
    assert_eq!(r, Err(BupError::SourceAcceptFailure(5)));
    assert_eq!(*sink.lengths.borrow(), vec![1, 1]);
}
