//! The tone generator: from the pulse width of each second to the envelope
//! of an audible carrier.
//!
//! The generator counts the samples it has handed out since the last second
//! boundary. The carrier is muted while that count is below the pivot, the
//! pulse width of the second in samples, and sounds for the rest of the
//! second. An updater refreshes the pivot from the clock once per second.

use crate::encoder::{encoded_symbol, pulse_width_ms, BPC};
use crate::timestamp::{ZonedTimestamp, MICROS_PER_SECOND};
use std::time::Duration;
use vstd::prelude::*;

verus! {

/// Carrier frequency of the broadcast, in hertz.
pub const BPC_FREQ: u32 = 68500;

/// Samples per second of the generated stream.
pub const SAMPLE_RATE: u32 = 44100;

/// The broadcast carrier is divided by this to bring the tone into the range
/// that loudspeakers reproduce.
pub const AUDIBLE_DIVISOR: u32 = 5;

/// Nanoseconds in one second.
pub const NANOS_PER_SECOND: u64 = 1_000_000_000;

/// Length in samples of a pulse of `width_ms` milliseconds, rounded down.
/// No pulse has length zero.
pub open spec fn pivot_samples(width_ms: Option<nat>, sample_rate: nat) -> nat {
    match width_ms {
        Some(w) => w * sample_rate / 1000,
        None => 0,
    }
}

/// One sample of the stream, before it is turned into an amplitude.
#[derive(Clone, Copy, Debug, PartialEq, Eq, Structural)]
pub enum Sample {
    /// Full amplitude, handed out while the pivot is being refreshed.
    Placeholder,
    /// Zero amplitude: the carrier is muted.
    Silence,
    /// The carrier at the given sample count since the second began. Its
    /// amplitude is the sine of `2π · carrier_hz() · count / SAMPLE_RATE`.
    Tone { count: usize },
}

/// Frequency in hertz of the tone that stands for the carrier.
pub fn carrier_hz() -> (hz: u32)
    ensures
        hz == BPC_FREQ / AUDIBLE_DIVISOR,
        hz == 13700,
{
    BPC_FREQ / AUDIBLE_DIVISOR
}

/// What the generator remembers between two samples.
pub struct GeneratorState {
    /// Length of the pulse of the current second, in samples.
    pub pivot: nat,
    /// Samples handed out since the current second began.
    pub count: nat,
    /// Whether a refresh of the pivot is under way.
    pub updating: bool,
}

impl GeneratorState {
    /// The state of a generator that has not seen the clock yet.
    pub open spec fn initial() -> Self {
        GeneratorState { pivot: 0, count: 0, updating: false }
    }

    /// The state after a refresh has begun.
    pub open spec fn entered_update(self) -> Self {
        GeneratorState { updating: true, ..self }
    }

    /// The state after a refresh at time `t` has completed.
    pub open spec fn refreshed(self, t: ZonedTimestamp) -> Self {
        GeneratorState {
            pivot: pivot_samples(pulse_width_ms(encoded_symbol(t)), SAMPLE_RATE as nat),
            count: 0,
            updating: false,
        }
    }

    /// The state after one more sample has been handed out. The count stops
    /// at the largest value the machine can hold.
    pub open spec fn advanced(self) -> Self {
        if self.updating || self.count >= usize::MAX {
            self
        } else {
            GeneratorState { count: self.count + 1, ..self }
        }
    }

    /// The sample handed out in this state.
    pub open spec fn emitted(self) -> Sample {
        if self.updating {
            Sample::Placeholder
        } else if self.advanced().count >= self.pivot {
            Sample::Tone { count: self.advanced().count as usize }
        } else {
            Sample::Silence
        }
    }

    /// The state after `n` samples have been handed out.
    pub open spec fn advanced_by(self, n: nat) -> Self
        decreases n,
    {
        if n == 0 {
            self
        } else {
            self.advanced_by((n - 1) as nat).advanced()
        }
    }
}

/// The generator proper: the pivot, the sample count, and the refresh flag.
pub struct BPCWaveInner {
    bpc: BPC,
    num_samples: usize,
    pivot: usize,
    updating: bool,
}

impl View for BPCWaveInner {
    type V = GeneratorState;

    closed spec fn view(&self) -> GeneratorState {
        GeneratorState {
            pivot: self.pivot as nat,
            count: self.num_samples as nat,
            updating: self.updating,
        }
    }
}

impl BPCWaveInner {
    pub fn new() -> (inner: Self)
        ensures
            inner@ == GeneratorState::initial(),
    {
        Self { bpc: BPC::new(), num_samples: 0, pivot: 0, updating: false }
    }

    /// Marks the start of a refresh. Until `update` completes it, `next`
    /// hands out placeholders and leaves the count alone.
    pub fn begin_update(&mut self)
        ensures
            final(self)@ == old(self)@.entered_update(),
    {
        self.updating = true;
    }

    /// Refreshes the pivot for the second that contains `t` and starts
    /// counting its samples from zero.
    pub fn update(&mut self, t: ZonedTimestamp)
        requires
            t.wf(),
        ensures
            final(self)@ == old(self)@.refreshed(t),
            t.second % 20 == 0 ==> final(self)@.pivot == 0,
    {
        self.updating = true;
        let width = self.bpc.signal_width(t).unwrap_or(0);
        self.pivot = (width * SAMPLE_RATE / 1000) as usize;
        self.num_samples = 0;
        self.updating = false;
    }

    /// Hands out the next sample.
    pub fn next(&mut self) -> (sample: Option<Sample>)
        ensures
            sample == Some(old(self)@.emitted()),
            final(self)@ == old(self)@.advanced(),
    {
        if self.updating {
            return Some(Sample::Placeholder);
        }
        if self.num_samples < usize::MAX {
            self.num_samples += 1;
        }
        if self.num_samples >= self.pivot {
            Some(Sample::Tone { count: self.num_samples })
        } else {
            Some(Sample::Silence)
        }
    }

    /// Length of the pulse of the current second, in samples.
    pub fn pivot(&self) -> (pivot: usize)
        ensures
            pivot == self@.pivot,
    {
        self.pivot
    }

    /// Samples handed out since the current second began.
    pub fn num_samples(&self) -> (count: usize)
        ensures
            count == self@.count,
    {
        self.num_samples
    }

    /// Whether a refresh of the pivot is under way.
    pub fn is_updating(&self) -> (updating: bool)
        ensures
            updating == self@.updating,
    {
        self.updating
    }
}

/// The stream that an audio sink pulls from: one channel at `SAMPLE_RATE`,
/// without end and without frames.
pub struct BPCWave {
    inner: BPCWaveInner,
}

impl View for BPCWave {
    type V = GeneratorState;

    closed spec fn view(&self) -> GeneratorState {
        self.inner@
    }
}

impl BPCWave {
    /// A stream that sounds the bare carrier until its first `update`.
    pub fn new() -> (wave: Self)
        ensures
            wave@ == GeneratorState::initial(),
    {
        Self { inner: BPCWaveInner::new() }
    }

    /// Refreshes the pulse width for the second that contains `now`. The
    /// updater calls this right after each second boundary.
    pub fn update(&mut self, now: ZonedTimestamp)
        requires
            now.wf(),
        ensures
            final(self)@ == old(self)@.refreshed(now),
            now.second % 20 == 0 ==> final(self)@.pivot == 0,
    {
        self.inner.update(now);
    }

    /// Length of the pulse of the current second, in samples.
    pub fn pivot(&self) -> (pivot: usize)
        ensures
            pivot == self@.pivot,
    {
        self.inner.pivot()
    }

    /// Hands out the next sample. The stream never ends.
    pub fn next(&mut self) -> (sample: Option<Sample>)
        ensures
            sample == Some(old(self)@.emitted()),
            final(self)@ == old(self)@.advanced(),
    {
        self.inner.next()
    }

    /// The stream has no frames of fixed length.
    pub fn current_frame_len(&self) -> (len: Option<usize>)
        ensures
            len is None,
    {
        None
    }

    /// The stream is mono.
    pub fn channels(&self) -> (channels: u16)
        ensures
            channels == 1,
    {
        1
    }

    pub fn sample_rate(&self) -> (rate: u32)
        ensures
            rate == SAMPLE_RATE,
    {
        SAMPLE_RATE
    }

    /// The stream has no total duration.
    pub fn total_duration(&self) -> (duration: Option<Duration>)
        ensures
            duration is None,
    {
        None
    }
}

/// Time in microseconds that the updater sleeps after a clock reading with
/// `subsec_micros` elapsed in the current second.
pub open spec fn sleep_micros(subsec_micros: nat) -> nat {
    (MICROS_PER_SECOND - subsec_micros) as nat
}

/// Time in microseconds for the updater to sleep so that it wakes at the
/// next second boundary. It is taken from the reading `now` alone, never
/// from an earlier reading or a fixed period.
pub fn micros_until_next_second(now: ZonedTimestamp) -> (delay: u64)
    requires
        now.wf(),
    ensures
        delay == sleep_micros(now.subsec_micros as nat),
        1 <= delay <= MICROS_PER_SECOND,
{
    let delta = MICROS_PER_SECOND - now.subsec_micros;
    delta as u64
}

/// The sub-second part that the clock reports at an instant given in
/// nanoseconds: whole microseconds, rounded down.
pub open spec fn reported_micros(instant_nanos: nat) -> nat {
    (instant_nanos % (NANOS_PER_SECOND as nat)) / 1000
}

/// The first second boundary after an instant, in nanoseconds.
pub open spec fn next_boundary(instant_nanos: nat) -> nat {
    (instant_nanos / (NANOS_PER_SECOND as nat) + 1) * (NANOS_PER_SECOND as nat)
}

/// The instant at which an updater that reads the clock at `instant_nanos`
/// and sleeps as `micros_until_next_second` tells it is due to wake.
pub open spec fn wake_target(instant_nanos: nat) -> nat {
    instant_nanos + 1000 * sleep_micros(reported_micros(instant_nanos))
}

/// Two instants in nanoseconds lie less than one sample period apart.
pub open spec fn within_one_sample(a: nat, b: nat) -> bool {
    &&& (a - b) * SAMPLE_RATE < NANOS_PER_SECOND
    &&& (b - a) * SAMPLE_RATE < NANOS_PER_SECOND
}

/// The updater does not drift. Whenever it reads the clock, however late
/// earlier wake-ups have made it, its wake-up target lies at or after the
/// next second boundary and less than one microsecond past it, which is
/// less than one sample period.
pub proof fn lemma_wake_target_on_boundary(instant_nanos: nat)
    ensures
        next_boundary(instant_nanos) <= wake_target(instant_nanos) < next_boundary(instant_nanos)
            + 1000,
        within_one_sample(wake_target(instant_nanos), next_boundary(instant_nanos)),
{
    let second = NANOS_PER_SECOND as nat;
    let whole = instant_nanos / second;
    let part = instant_nanos % second;
    assert(instant_nanos == second * whole + part) by (nonlinear_arith)
        requires
            second == 1_000_000_000,
            whole == instant_nanos / second,
            part == instant_nanos % second,
    ;
    assert((whole + 1) * second == second * whole + second) by (nonlinear_arith);
}

/// No drift over any run of wake-ups: each target in the run lies within one
/// sample period of the boundary that follows its own clock reading,
/// whatever the readings before it were.
pub proof fn lemma_no_drift(readings: Seq<nat>)
    ensures
        forall|i: int|
            0 <= i < readings.len() ==> within_one_sample(
                wake_target(#[trigger] readings[i]),
                next_boundary(readings[i]),
            ),
{
    assert forall|i: int| 0 <= i < readings.len() implies within_one_sample(
        wake_target(#[trigger] readings[i]),
        next_boundary(readings[i]),
    ) by {
        lemma_wake_target_on_boundary(readings[i]);
    }
}

/// The envelope of one second. After a refresh, the `n`-th sample handed out
/// is silent while `n` is below the pivot and is the carrier at count `n`
/// from the pivot on.
pub proof fn lemma_envelope(state: GeneratorState, n: nat)
    requires
        !state.updating,
        state.count == 0,
        1 <= n <= usize::MAX,
    ensures
        state.advanced_by(n).count == n,
        state.advanced_by(n).pivot == state.pivot,
        !state.advanced_by(n).updating,
        state.advanced_by((n - 1) as nat).emitted() == if n < state.pivot {
            Sample::Silence
        } else {
            Sample::Tone { count: n as usize }
        },
    decreases n,
{
    if n == 1 {
        assert(state.advanced_by(0) == state);
    } else {
        lemma_envelope(state, (n - 1) as nat);
    }
}

} // verus!
