//! The clock of the synthetic signal: which samples exist and when.

use vstd::prelude::*;

verus! {

/// One point of the signal, identified by its time coordinate in thousandths
/// of a chart unit. The value that belongs to a time is a real-valued
/// function of the time and of the generator's period and scale, and is
/// evaluated where the point is drawn.
#[derive(Clone, Copy, Debug, PartialEq, Eq, Structural)]
pub struct Sample {
    pub time: u64,
}

/// Mathematical model of a [`SinSignal`].
pub struct SignalModel {
    /// Time of the next sample.
    pub time: int,
    /// Distance in time between two consecutive samples.
    pub interval: int,
    pub period: int,
    pub scale: int,
}

impl SignalModel {
    /// The step between samples is positive, so time strictly increases,
    /// and every quantity fits the machine word that holds it.
    pub open spec fn wf(&self) -> bool {
        &&& 0 <= self.time <= u64::MAX
        &&& 0 < self.interval <= u64::MAX
        &&& 0 <= self.period <= u64::MAX
        &&& 0 <= self.scale <= u64::MAX
    }

    /// Whether `n` more samples can be drawn without the time leaving `u64`.
    pub open spec fn has_room(&self, n: nat) -> bool {
        self.time + n * self.interval <= u64::MAX
    }

    /// The generator after `n` more samples.
    pub open spec fn advanced(&self, n: nat) -> SignalModel {
        SignalModel { time: self.time + n * self.interval, ..*self }
    }
}

/// The `n` samples that start at time `start` and lie `interval` apart.
pub open spec fn samples_from(start: int, interval: int, n: nat) -> Seq<Sample> {
    Seq::new(n, |i: int| Sample { time: (start + i * interval) as u64 })
}

/// A run of samples, followed by the run that starts one interval behind its
/// last sample, is one run.
pub proof fn lemma_samples_join(start: int, interval: int, n: nat, m: nat)
    ensures
        samples_from(start, interval, n) + samples_from(start + n * interval, interval, m)
            == samples_from(start, interval, n + m),
{
    let joined = samples_from(start, interval, n) + samples_from(
        start + n * interval,
        interval,
        m,
    );
    let whole = samples_from(start, interval, n + m);
    assert forall|i: int| 0 <= i < whole.len() implies joined[i] == whole[i] by {
        if i >= n {
            assert(start + n * interval + (i - n) * interval == start + i * interval)
                by (nonlinear_arith);
        }
    }
    assert(joined =~= whole);
}

/// Generator of an endless, evenly spaced run of samples. Consuming a sample
/// advances the generator for good; it cannot be rewound.
pub struct SinSignal {
    time: u64,
    interval: u64,
    period: u64,
    scale: u64,
}

impl View for SinSignal {
    type V = SignalModel;

    closed spec fn view(&self) -> SignalModel {
        SignalModel {
            time: self.time as int,
            interval: self.interval as int,
            period: self.period as int,
            scale: self.scale as int,
        }
    }
}

impl SinSignal {
    pub open spec fn wf(&self) -> bool {
        self@.wf()
    }

    /// Whether `n` more samples can be drawn without the time leaving `u64`.
    pub open spec fn has_room(&self, n: nat) -> bool {
        self@.has_room(n)
    }

    /// A generator whose first sample is at time 0. All three parameters are
    /// in thousandths.
    pub fn new(interval: u64, period: u64, scale: u64) -> (signal: SinSignal)
        requires
            interval > 0,
        ensures
            signal.wf(),
            signal@ == (SignalModel {
                time: 0,
                interval: interval as int,
                period: period as int,
                scale: scale as int,
            }),
    {
        SinSignal { time: 0, interval, period, scale }
    }

    /// Decides [`SinSignal::has_room`].
    pub fn can_take(&self, n: usize) -> (room: bool)
        requires
            self.wf(),
        ensures
            room == self.has_room(n as nat),
    {
        let spare: u64 = (u64::MAX - self.time) / self.interval;
        proof {
            let t = self.time as int;
            let d = self.interval as int;
            let m = (u64::MAX - t) as int;
            assert(n as int <= m / d <==> (n as int) * d <= m) by (nonlinear_arith)
                requires
                    d > 0,
                    m >= 0,
                    n >= 0,
            ;
        }
        n as u64 <= spare
    }

    /// Emits the next sample and moves on by one interval.
    pub fn next(&mut self) -> (sample: Sample)
        requires
            old(self).wf(),
            old(self).has_room(1),
        ensures
            final(self).wf(),
            sample.time == old(self)@.time,
            final(self)@ == old(self)@.advanced(1),
    {
        let sample = Sample { time: self.time };
        self.time = self.time + self.interval;
        sample
    }

    /// Emits the next `n` samples, oldest first.
    pub fn take(&mut self, n: usize) -> (batch: Vec<Sample>)
        requires
            old(self).wf(),
            old(self).has_room(n as nat),
        ensures
            final(self).wf(),
            batch@ == samples_from(old(self)@.time, old(self)@.interval, n as nat),
            final(self)@ == old(self)@.advanced(n as nat),
    {
        let ghost start = self@.time;
        let ghost step = self@.interval;
        let mut batch: Vec<Sample> = Vec::new();
        let mut i: usize = 0;
        while i < n
            invariant
                i <= n,
                self.wf(),
                self@ == (SignalModel { time: start + i * step, ..old(self)@ }),
                start == old(self)@.time,
                step == old(self)@.interval,
                start + n * step <= u64::MAX,
                batch@ == samples_from(start, step, i as nat),
            decreases n - i,
        {
            proof {
                assert((i + 1) * step == i * step + step) by (nonlinear_arith);
                assert((i + 1) * step <= n * step) by (nonlinear_arith)
                    requires
                        i + 1 <= n,
                        step > 0,
                ;
            }
            let sample = self.next();
            batch.push(sample);
            i = i + 1;
            assert(batch@ =~= samples_from(start, step, i as nat));
        }
        batch
    }

    pub fn time(&self) -> (t: u64)
        ensures
            t == self@.time,
    {
        self.time
    }

    pub fn interval(&self) -> (t: u64)
        ensures
            t == self@.interval,
    {
        self.interval
    }

    pub fn period(&self) -> (t: u64)
        ensures
            t == self@.period,
    {
        self.period
    }

    pub fn scale(&self) -> (t: u64)
        ensures
            t == self@.scale,
    {
        self.scale
    }
}

/// Of the samples that a generator is yet to emit, each lies exactly one
/// interval after the one before it, and so is strictly later. The sample
/// after `n` others is the one that the generator emits next once it has
/// advanced by `n`.
pub proof fn lemma_sample_spacing(signal: SignalModel, n: nat)
    requires
        signal.wf(),
        signal.has_room(n + 1),
    ensures
        signal.advanced(n + 1).time - signal.advanced(n).time == signal.interval,
        signal.advanced(n).time < signal.advanced(n + 1).time <= u64::MAX,
        samples_from(signal.time, signal.interval, n + 2)[n as int].time == signal.advanced(n).time,
        samples_from(signal.time, signal.interval, n + 2)[n as int + 1].time == signal.advanced(
            n + 1,
        ).time,
{
    let d = signal.interval;
    assert((n + 1) * d == n * d + d) by (nonlinear_arith);
    assert(0 <= n * d) by (nonlinear_arith)
        requires
            0 <= n,
            0 < d,
    ;
}

} // verus!
