//! Noise rejection by averaging: up to five measurements are attempted, the
//! first three that succeed are kept, and their mean is the estimate.
//!
//! The estimator only keeps count. The caller measures, hands each sample to
//! [`Estimator::record`], pauses for as long as it answers, and goes on while
//! [`Estimator::wants_more`] says so.

use vstd::prelude::*;
use crate::distance::Distance;
use crate::rangefinder::{MeasureError, MAX_RANGE, MIN_RANGE};

verus! {

/// The largest number of measurements attempted for one estimate.
pub const MAX_ATTEMPTS: u8 = 5;

/// The number of successful measurements after which no more are attempted.
pub const WANTED_READINGS: u8 = 3;

/// Pause after each attempt, in milliseconds.
pub const ATTEMPT_PAUSE_MILLIS: u64 = 10;

/// No attempt gave a distance.
#[derive(Clone, Copy, Debug, PartialEq, Eq, Structural)]
pub struct NoValidReadings;

/// The count an estimator keeps: the attempts made, how many of them gave a
/// distance, and the sum of those distances.
pub struct Tally {
    pub attempts: nat,
    pub valid: nat,
    pub sum: nat,
}

impl Tally {
    /// The count before the first attempt.
    pub open spec fn start() -> Tally {
        Tally { attempts: 0, valid: 0, sum: 0 }
    }

    /// Another measurement is to be attempted: fewer than five were, and
    /// fewer than three of them succeeded.
    pub open spec fn wants_more(self) -> bool {
        self.attempts < MAX_ATTEMPTS && self.valid < WANTED_READINGS
    }

    /// The count after one more sample. A sample that arrives when no more
    /// are wanted is ignored.
    pub open spec fn after(self, sample: Result<Distance, MeasureError>) -> Tally {
        if !self.wants_more() {
            self
        } else {
            match sample {
                Ok(d) => Tally {
                    attempts: self.attempts + 1,
                    valid: self.valid + 1,
                    sum: self.sum + d@,
                },
                Err(_) => Tally { attempts: self.attempts + 1, ..self },
            }
        }
    }

    /// The count after the samples of `samples`, in order.
    pub open spec fn after_all(self, samples: Seq<Result<Distance, MeasureError>>) -> Tally
        decreases samples.len(),
    {
        if samples.len() == 0 {
            self
        } else {
            self.after_all(samples.drop_last()).after(samples.last())
        }
    }

    /// The estimate: the mean of the distances kept, rounded towards zero to
    /// a whole distance unit, or the failure if none was kept.
    pub open spec fn outcome(self) -> Result<Distance, NoValidReadings> {
        if self.valid > 0 {
            Ok(Distance { units: (self.sum / self.valid) as u32 })
        } else {
            Err(NoValidReadings)
        }
    }

    /// The bounds every count obeys.
    pub open spec fn well_formed(self) -> bool {
        &&& self.valid <= self.attempts <= MAX_ATTEMPTS
        &&& self.valid <= WANTED_READINGS
        &&& self.sum <= self.valid * u32::MAX
    }
}

/// The running count of one estimation pass.
#[derive(Clone, Copy, Debug)]
pub struct Estimator {
    attempts: u8,
    valid: u8,
    sum: u64,
}

impl View for Estimator {
    type V = Tally;

    closed spec fn view(&self) -> Tally {
        Tally { attempts: self.attempts as nat, valid: self.valid as nat, sum: self.sum as nat }
    }
}

impl Estimator {
    /// The bounds the counters obey at all times.
    #[verifier::type_invariant]
    closed spec fn counters_bounded(self) -> bool {
        self@.well_formed()
    }

    /// An estimator before its first attempt.
    pub fn new() -> (e: Estimator)
        ensures
            e@ == Tally::start(),
    {
        Estimator { attempts: 0, valid: 0, sum: 0 }
    }

    /// The number of attempts recorded so far: never more than five.
    pub fn attempts(&self) -> (n: u8)
        ensures
            n as nat == self@.attempts,
            n <= MAX_ATTEMPTS,
    {
        proof {
            use_type_invariant(self);
        }
        self.attempts
    }

    /// The number of recorded attempts that gave a distance: never more than
    /// three.
    pub fn valid_readings(&self) -> (n: u8)
        ensures
            n as nat == self@.valid,
            n <= WANTED_READINGS,
    {
        proof {
            use_type_invariant(self);
        }
        self.valid
    }

    /// Whether another measurement is to be attempted.
    pub fn wants_more(&self) -> (more: bool)
        ensures
            more == self@.wants_more(),
    {
        self.attempts < MAX_ATTEMPTS && self.valid < WANTED_READINGS
    }

    /// Records the sample of one attempt and returns the pause, in
    /// milliseconds, that follows the attempt. A sample that arrives when no
    /// more are wanted changes nothing and calls for no pause.
    pub fn record(&mut self, sample: Result<Distance, MeasureError>) -> (pause_millis: u64)
        ensures
            final(self)@ == old(self)@.after(sample),
            final(self)@.well_formed(),
            pause_millis == if old(self)@.wants_more() {
                ATTEMPT_PAUSE_MILLIS
            } else {
                0
            },
    {
        proof {
            use_type_invariant(&*self);
        }
        if self.wants_more() {
            match sample {
                Ok(d) => {
                    proof {
                        let v = self.valid as int;
                        assert(v * u32::MAX + u32::MAX == (v + 1) * u32::MAX)
                            by (nonlinear_arith);
                        assert(v * u32::MAX <= 3 * u32::MAX) by (nonlinear_arith)
                            requires
                                v <= 3,
                        ;
                    }
                    *self = Estimator {
                        attempts: self.attempts + 1,
                        valid: self.valid + 1,
                        sum: self.sum + d.units as u64,
                    };
                },
                Err(_) => {
                    *self = Estimator {
                        attempts: self.attempts + 1,
                        valid: self.valid,
                        sum: self.sum,
                    };
                },
            }
            ATTEMPT_PAUSE_MILLIS
        } else {
            0
        }
    }

    /// The estimate from what was recorded: the mean of the distances kept,
    /// or the failure if there is none.
    pub fn result(&self) -> (estimate: Result<Distance, NoValidReadings>)
        ensures
            estimate == self@.outcome(),
            estimate.is_ok() <==> self@.valid > 0,
    {
        proof {
            use_type_invariant(self);
        }
        if self.valid > 0 {
            let valid: u64 = self.valid as u64;
            let mean: u64 = self.sum / valid;
            proof {
                let s = self.sum as int;
                let v = self.valid as int;
                assert(s / v <= u32::MAX) by (nonlinear_arith)
                    requires
                        v > 0,
                        s <= v * u32::MAX,
                ;
            }
            Ok(Distance { units: mean as u32 })
        } else {
            Err(NoValidReadings)
        }
    }
}

/// Estimates a distance from the samples that successive measurements give:
/// samples are taken in order while fewer than five were taken and fewer than
/// three of them succeeded, and the rest is ignored.
pub fn estimate(samples: &Vec<Result<Distance, MeasureError>>) -> (estimate: Result<
    Distance,
    NoValidReadings,
>)
    ensures
        estimate == Tally::start().after_all(samples@).outcome(),
{
    let mut estimator = Estimator::new();
    let mut i: usize = 0;
    while i < samples.len()
        invariant
            i <= samples@.len(),
            estimator@ == Tally::start().after_all(samples@.take(i as int)),
        decreases samples@.len() - i,
    {
        proof {
            assert(samples@.take(i + 1).drop_last() =~= samples@.take(i as int));
        }
        let _ = estimator.record(samples[i]);
        i = i + 1;
    }
    assert(samples@.take(i as int) =~= samples@);
    estimator.result()
}

/// Every count reached from the start is well formed: never more than five
/// attempts, never more than three readings kept.
pub proof fn lemma_after_all_well_formed(samples: Seq<Result<Distance, MeasureError>>)
    ensures
        Tally::start().after_all(samples).well_formed(),
        Tally::start().after_all(samples).attempts <= samples.len(),
    decreases samples.len(),
{
    if samples.len() > 0 {
        lemma_after_all_well_formed(samples.drop_last());
        let before = Tally::start().after_all(samples.drop_last());
        let v = before.valid as int;
        assert(v * u32::MAX + u32::MAX == (v + 1) * u32::MAX) by (nonlinear_arith);
    }
}

/// When every measurement fails, the estimator goes on for exactly five
/// attempts and then gives up with no valid reading.
pub proof fn lemma_all_failures(samples: Seq<Result<Distance, MeasureError>>)
    requires
        forall|i: int| 0 <= i < samples.len() ==> (#[trigger] samples[i]).is_err(),
    ensures
        Tally::start().after_all(samples).valid == 0,
        samples.len() < 5 ==> Tally::start().after_all(samples).attempts == samples.len(),
        samples.len() < 5 ==> Tally::start().after_all(samples).wants_more(),
        samples.len() >= 5 ==> Tally::start().after_all(samples).attempts == 5,
        samples.len() >= 5 ==> !Tally::start().after_all(samples).wants_more(),
        Tally::start().after_all(samples).outcome() == Err::<Distance, NoValidReadings>(
            NoValidReadings,
        ),
    decreases samples.len(),
{
    if samples.len() > 0 {
        lemma_all_failures(samples.drop_last());
    }
}

/// The estimate succeeds exactly when one of the first five samples is a
/// distance.
pub proof fn lemma_success_iff_early_reading(samples: Seq<Result<Distance, MeasureError>>)
    ensures
        Tally::start().after_all(samples).outcome().is_ok() <==> exists|i: int|
            0 <= i < samples.len() && i < 5 && (#[trigger] samples[i]).is_ok(),
    decreases samples.len(),
{
    let whole = Tally::start().after_all(samples);
    if samples.len() > 0 {
        let front = samples.drop_last();
        let before = Tally::start().after_all(front);
        lemma_success_iff_early_reading(front);
        lemma_after_all_well_formed(front);
        lemma_attempts_while_wanted(front);
        if before.outcome().is_ok() {
            let i = choose|i: int| 0 <= i < front.len() && i < 5 && (#[trigger] front[i]).is_ok();
            assert(samples[i].is_ok());
        } else {
            if whole.outcome().is_ok() {
                assert(samples[samples.len() - 1].is_ok());
            }
            if exists|i: int| 0 <= i < samples.len() && i < 5 && (#[trigger] samples[i]).is_ok() {
                let i = choose|i: int|
                    0 <= i < samples.len() && i < 5 && (#[trigger] samples[i]).is_ok();
                if i < front.len() {
                    assert(front[i].is_ok());
                }
            }
        }
    }
}

/// While no reading was kept, every sample so far counted as an attempt, up
/// to the fifth.
pub proof fn lemma_attempts_while_wanted(samples: Seq<Result<Distance, MeasureError>>)
    ensures
        Tally::start().after_all(samples).valid == 0 ==> Tally::start().after_all(
            samples,
        ).attempts == if samples.len() < 5 {
            samples.len()
        } else {
            5
        },
    decreases samples.len(),
{
    if samples.len() > 0 {
        lemma_attempts_while_wanted(samples.drop_last());
    }
}

/// Three readings in a row end the pass, and the estimate is their
/// arithmetic mean, whatever follows them.
pub proof fn lemma_three_readings(
    a: Distance,
    b: Distance,
    c: Distance,
    rest: Seq<Result<Distance, MeasureError>>,
)
    ensures
        Tally::start().after_all(seq![Ok(a), Ok(b), Ok(c)] + rest) == (Tally {
            attempts: 3,
            valid: 3,
            sum: a@ + b@ + c@,
        }),
        Tally::start().after_all(seq![Ok(a), Ok(b), Ok(c)] + rest).outcome() == Ok::<
            Distance,
            NoValidReadings,
        >(Distance { units: ((a@ + b@ + c@) / 3) as u32 }),
    decreases rest.len(),
{
    let first = seq![Ok::<Distance, MeasureError>(a), Ok(b), Ok(c)];
    if rest.len() == 0 {
        assert(first + rest =~= first);
        let s0 = Seq::<Result<Distance, MeasureError>>::empty();
        let s1 = s0.push(Ok(a));
        let s2 = s1.push(Ok(b));
        let s3 = s2.push(Ok(c));
        assert(s3 =~= first);
        assert(s3.drop_last() =~= s2);
        assert(s2.drop_last() =~= s1);
        assert(s1.drop_last() =~= s0);
        assert(Tally::start().after_all(s0) == Tally::start());
        assert(Tally::start().after_all(s1) == Tally::start().after(Ok(a)));
        assert(Tally::start().after_all(s2) == Tally::start().after(Ok(a)).after(Ok(b)));
        assert(Tally::start().after_all(s3) == Tally::start().after(Ok(a)).after(Ok(b)).after(
            Ok(c),
        ));
    } else {
        lemma_three_readings(a, b, c, rest.drop_last());
        assert((first + rest).drop_last() =~= first + rest.drop_last());
    }
}

/// The mean of readings that all lie in the accepted range lies in it too.
pub proof fn lemma_estimate_in_range(samples: Seq<Result<Distance, MeasureError>>)
    requires
        forall|i: int|
            0 <= i < samples.len() && (#[trigger] samples[i]).is_ok() ==> MIN_RANGE
                <= samples[i].unwrap()@ <= MAX_RANGE,
    ensures
        Tally::start().after_all(samples).valid * MIN_RANGE <= Tally::start().after_all(
            samples,
        ).sum <= Tally::start().after_all(samples).valid * MAX_RANGE,
        match Tally::start().after_all(samples).outcome() {
            Ok(d) => MIN_RANGE <= d@ <= MAX_RANGE,
            Err(_) => true,
        },
    decreases samples.len(),
{
    let whole = Tally::start().after_all(samples);
    if samples.len() > 0 {
        let front = samples.drop_last();
        let before = Tally::start().after_all(front);
        lemma_estimate_in_range(front);
        let v = before.valid as int;
        assert(v * 2000 + 2000 == (v + 1) * 2000) by (nonlinear_arith);
        assert(v * 400000 + 400000 == (v + 1) * 400000) by (nonlinear_arith);
        assert(samples.last() == samples[samples.len() - 1]);
    }
    lemma_after_all_well_formed(samples);
    let s = whole.sum as int;
    let v = whole.valid as int;
    if v > 0 {
        assert(2000 <= s / v <= 400000) by (nonlinear_arith)
            requires
                v > 0,
                v * 2000 <= s <= v * 400000,
        ;
    }
}

} // verus!
