//! Measurements handed to the caller, and their averaging over a window.
use vstd::prelude::*;
use crate::frame::PmsMeasurement;

verus! {

/// Particle concentrations (µg/m³) for the 1.0 µm and 2.5 µm size classes,
/// either from one frame or averaged over several.
#[derive(Debug, Clone, Copy, PartialEq, Eq, Structural)]
pub struct Measurement {
    pub pm1_0_avg: u32,
    pub pm2_5_avg: u32,
}

/// What is reported of one decoded frame: its two atmospheric concentrations.
pub open spec fn reported(p: PmsMeasurement) -> Measurement {
    Measurement { pm1_0_avg: p.pm1_0_atm as u32, pm2_5_avg: p.pm2_5_atm as u32 }
}

impl From<PmsMeasurement> for Measurement {
    /// Keeps the two atmospheric concentrations that are reported.
    fn from(value: PmsMeasurement) -> Measurement {
        Measurement { pm1_0_avg: value.pm1_0_atm as u32, pm2_5_avg: value.pm2_5_atm as u32 }
    }
}

impl vstd::std_specs::convert::FromSpecImpl<PmsMeasurement> for Measurement {
    open spec fn obeys_from_spec() -> bool {
        true
    }

    open spec fn from_spec(v: PmsMeasurement) -> Measurement {
        reported(v)
    }
}

/// Sum of the 1.0 µm fields of `s`.
pub open spec fn sum_pm1_0(s: Seq<Measurement>) -> int
    decreases s.len(),
{
    if s.len() == 0 {
        0
    } else {
        sum_pm1_0(s.drop_last()) + s.last().pm1_0_avg as int
    }
}

/// Sum of the 2.5 µm fields of `s`.
pub open spec fn sum_pm2_5(s: Seq<Measurement>) -> int
    decreases s.len(),
{
    if s.len() == 0 {
        0
    } else {
        sum_pm2_5(s.drop_last()) + s.last().pm2_5_avg as int
    }
}

/// The integer-truncated mean of each field of `s`; none for an empty `s`.
pub open spec fn mean(s: Seq<Measurement>) -> Option<Measurement> {
    if s.len() == 0 {
        None
    } else {
        Some(
            Measurement {
                pm1_0_avg: (sum_pm1_0(s) / s.len() as int) as u32,
                pm2_5_avg: (sum_pm2_5(s) / s.len() as int) as u32,
            },
        )
    }
}

proof fn lemma_sums_bounded(s: Seq<Measurement>)
    ensures
        0 <= sum_pm1_0(s) <= s.len() * 0xffff_ffff,
        0 <= sum_pm2_5(s) <= s.len() * 0xffff_ffff,
    decreases s.len(),
{
    if s.len() > 0 {
        lemma_sums_bounded(s.drop_last());
    }
}

proof fn lemma_mean_fits(total: int, n: int)
    requires
        n > 0,
        0 <= total <= n * 0xffff_ffff,
    ensures
        0 <= total / n <= 0xffff_ffff,
{
    assert(total / n <= (n * 0xffff_ffff) / n) by (nonlinear_arith)
        requires n > 0, total <= n * 0xffff_ffff, 0 <= total;
    assert((n * 0xffff_ffff) / n == 0xffff_ffff) by (nonlinear_arith)
        requires n > 0;
    assert(0 <= total / n) by (nonlinear_arith)
        requires n > 0, 0 <= total;
}

/// Running sums of the readings collected during one averaging window.
pub struct Averager {
    pm1_0_sum: u128,
    pm2_5_sum: u128,
    count: u128,
    samples: Ghost<Seq<Measurement>>,
}

impl Averager {
    /// The readings collected so far, oldest first.
    pub closed spec fn samples(&self) -> Seq<Measurement> {
        self.samples@
    }

    /// The running sums agree with the collected readings.
    pub closed spec fn wf(&self) -> bool {
        &&& self.pm1_0_sum as int == sum_pm1_0(self.samples@)
        &&& self.pm2_5_sum as int == sum_pm2_5(self.samples@)
        &&& self.count as int == self.samples@.len()
    }

    /// An averager with no readings.
    pub fn new() -> (r: Averager)
        ensures
            r.wf(),
            r.samples() == Seq::<Measurement>::empty(),
    {
        Averager { pm1_0_sum: 0, pm2_5_sum: 0, count: 0, samples: Ghost(Seq::empty()) }
    }

    /// Number of readings collected.
    pub fn count(&self) -> (r: u128)
        requires
            self.wf(),
        ensures
            r as int == self.samples().len(),
    {
        self.count
    }

    /// Whether `m` can be added without a running sum or the count leaving
    /// its 128-bit range.
    pub open spec fn can_add(&self, m: Measurement) -> bool {
        &&& sum_pm1_0(self.samples()) + m.pm1_0_avg <= u128::MAX
        &&& sum_pm2_5(self.samples()) + m.pm2_5_avg <= u128::MAX
        &&& self.samples().len() < u128::MAX
    }

    /// Adds one reading. A reading that would overflow the running sums is
    /// refused and leaves the averager as it was.
    pub fn add(&mut self, m: Measurement) -> (added: bool)
        requires
            old(self).wf(),
        ensures
            final(self).wf(),
            added == old(self).can_add(m),
            added ==> final(self).samples() == old(self).samples().push(m),
            !added ==> final(self).samples() == old(self).samples(),
    {
        if self.count == u128::MAX || self.pm1_0_sum > u128::MAX - m.pm1_0_avg as u128
            || self.pm2_5_sum > u128::MAX - m.pm2_5_avg as u128
        {
            return false;
        }
        let ghost prev = self.samples@;
        self.pm1_0_sum = self.pm1_0_sum + m.pm1_0_avg as u128;
        self.pm2_5_sum = self.pm2_5_sum + m.pm2_5_avg as u128;
        self.count = self.count + 1;
        self.samples = Ghost(prev.push(m));
        assert(self.samples@.drop_last() == prev);
        true
    }

    /// The mean of the collected readings, truncated per field; none when no
    /// reading was collected.
    pub fn finish(&self) -> (r: Option<Measurement>)
        requires
            self.wf(),
        ensures
            r == mean(self.samples()),
    {
        if self.count == 0 {
            return None;
        }
        proof {
            lemma_sums_bounded(self.samples@);
            lemma_mean_fits(self.pm1_0_sum as int, self.count as int);
            lemma_mean_fits(self.pm2_5_sum as int, self.count as int);
        }
        Some(
            Measurement {
                pm1_0_avg: (self.pm1_0_sum / self.count) as u32,
                pm2_5_avg: (self.pm2_5_sum / self.count) as u32,
            },
        )
    }
}

/// The mean of a window's readings, truncated per field; none for an empty
/// window.
pub fn mean_of(readings: &Vec<Measurement>) -> (r: Option<Measurement>)
    ensures
        r == mean(readings@),
{
    let mut acc = Averager::new();
    let mut i: usize = 0;
    while i < readings.len()
        invariant
            i <= readings@.len(),
            acc.wf(),
            acc.samples() == readings@.subrange(0, i as int),
        decreases readings@.len() - i,
    {
        proof {
            lemma_sums_bounded(readings@.subrange(0, i as int));
            assert(i * 0xffff_ffff + 0xffff_ffff <= u128::MAX) by (nonlinear_arith)
                requires i <= usize::MAX;
        }
        let added = acc.add(readings[i]);
        assert(readings@.subrange(0, i as int + 1).drop_last() == readings@.subrange(0, i as int));
        assert(added);
        i = i + 1;
    }
    assert(readings@.subrange(0, i as int) == readings@);
    acc.finish()
}

} // verus!
