//! Lap-distance monotonicity of a stored session: within a lap the distance
//! must not go backwards. A drop from above 100 m to below 50 m is a lap
//! reset, not a violation. Distances are double-precision values given by
//! their bits; absent samples are skipped.

use vstd::prelude::*;
use std::collections::HashMap;
use crate::float_bits::{f64_lt, f64_bits_lt, F64_NEG_INFINITY_BITS};

verus! {

broadcast use vstd::std_specs::hash::group_hash_axioms;

/// Bits of 50.0: a lap reset lands below this distance (metres).
pub const LAP_RESET_THRESHOLD_BITS: u64 = 0x4049000000000000;

/// Bits of 100.0: a lap reset leaves a distance above this (metres).
pub const LAP_RESET_PREV_MIN_BITS: u64 = 0x4059000000000000;

/// A place where the lap distance went backwards within a lap.
#[derive(Debug, Clone, Copy, PartialEq, Eq, Structural)]
pub struct MonotonicityViolation {
    pub lap_number: u32,
    pub sample_index: usize,
    /// Bits of the distance before the regression.
    pub previous_value: u64,
    /// Bits of the smaller distance that followed it.
    pub violating_value: u64,
}

/// A distance starts a new lap: it lies below 50 m while the previous one lay above 100 m.
pub open spec fn is_lap_reset(value: u64, prev: u64) -> bool {
    f64_lt(value, LAP_RESET_THRESHOLD_BITS) && f64_lt(LAP_RESET_PREV_MIN_BITS, prev)
}

/// The last distance seen and the current lap after scanning `values`;
/// the scan starts at negative infinity in lap 1.
pub open spec fn distance_scan(values: Seq<Option<u64>>) -> (u64, nat)
    decreases values.len(),
{
    if values.len() == 0 {
        (F64_NEG_INFINITY_BITS, 1)
    } else {
        let (prev, lap) = distance_scan(values.drop_last());
        match values.last() {
            Some(v) => if is_lap_reset(v, prev) {
                (v, lap + 1)
            } else {
                (v, lap)
            },
            None => (prev, lap),
        }
    }
}

/// The violations in `values`, in sample order: each present distance that
/// is below the previous one and does not start a new lap.
pub open spec fn monotonicity_violations(values: Seq<Option<u64>>) -> Seq<MonotonicityViolation>
    decreases values.len(),
{
    if values.len() == 0 {
        Seq::empty()
    } else {
        let prior = monotonicity_violations(values.drop_last());
        let (prev, lap) = distance_scan(values.drop_last());
        match values.last() {
            Some(v) => if !is_lap_reset(v, prev) && f64_lt(v, prev) {
                prior.push(
                    MonotonicityViolation {
                        lap_number: lap as u32,
                        sample_index: (values.len() - 1) as usize,
                        previous_value: prev,
                        violating_value: v,
                    },
                )
            } else {
                prior
            },
            None => prior,
        }
    }
}

/// The number of present distances in each lap, laps split where the
/// distance resets; the sample that resets counts in the new lap.
pub open spec fn lap_sample_counts(values: Seq<Option<u64>>) -> Map<u32, nat>
    decreases values.len(),
{
    if values.len() == 0 {
        Map::empty()
    } else {
        let counts = lap_sample_counts(values.drop_last());
        match values.last() {
            Some(v) => {
                let lap = distance_scan(values).1 as u32;
                counts.insert(
                    lap,
                    if counts.contains_key(lap) {
                        counts[lap] + 1
                    } else {
                        1
                    },
                )
            },
            None => counts,
        }
    }
}

/// The lap number grows by at most one per sample.
proof fn lemma_lap_bound(values: Seq<Option<u64>>)
    ensures
        1 <= distance_scan(values).1 <= values.len() + 1,
    decreases values.len(),
{
    if values.len() > 0 {
        lemma_lap_bound(values.drop_last());
    }
}

/// The distance of the last present sample before position `n`, or
/// negative infinity when there is none.
pub open spec fn last_present(values: Seq<Option<u64>>, n: int) -> u64
    decreases n,
{
    if n <= 0 {
        F64_NEG_INFINITY_BITS
    } else {
        match values[n - 1] {
            Some(v) => v,
            None => last_present(values, n - 1),
        }
    }
}

/// The last present sample before a position does not depend on what follows.
proof fn lemma_last_present_prefix(values: Seq<Option<u64>>, m: int, n: int)
    requires
        0 <= n <= m <= values.len(),
    ensures
        last_present(values.take(m), n) == last_present(values, n),
    decreases n,
{
    if n > 0 {
        lemma_last_present_prefix(values, m, n - 1);
    }
}

/// Every sample is compared with the sample present just before it,
/// whatever that sample did: after any prefix of the samples, the scan
/// holds the last present distance.
pub proof fn lemma_scan_holds_last_present(values: Seq<Option<u64>>, n: int)
    requires
        0 <= n <= values.len(),
    ensures
        distance_scan(values.take(n)).0 == last_present(values, n),
    decreases n,
{
    if n > 0 {
        lemma_scan_holds_last_present(values, n - 1);
        assert(values.take(n).drop_last() =~= values.take(n - 1));
        assert(values.take(n).last() == values[n - 1]);
    }
}

/// A violation is reported at a sample exactly when its distance is below
/// the distance of the present sample just before it and it does not start
/// a new lap; the violation carries both distances.
pub proof fn lemma_violations_are_regressions(values: Seq<Option<u64>>)
    requires
        values.len() <= usize::MAX,
    ensures
        forall|k: int|
            0 <= k < monotonicity_violations(values).len() ==> {
                let x = #[trigger] monotonicity_violations(values)[k];
                &&& 0 <= x.sample_index < values.len()
                &&& values[x.sample_index as int] == Some(x.violating_value)
                &&& x.previous_value == last_present(values, x.sample_index as int)
                &&& f64_lt(x.violating_value, x.previous_value)
                &&& !is_lap_reset(x.violating_value, x.previous_value)
            },
        forall|i: int|
            0 <= i < values.len() && (#[trigger] values[i] matches Some(v) && f64_lt(
                v,
                last_present(values, i),
            ) && !is_lap_reset(v, last_present(values, i))) ==> exists|k: int|
                0 <= k < monotonicity_violations(values).len()
                    && monotonicity_violations(values)[k].sample_index == i,
    decreases values.len(),
{
    if values.len() > 0 {
        let prior = values.drop_last();
        let n = values.len() as int;
        lemma_violations_are_regressions(prior);
        lemma_scan_holds_last_present(values, n - 1);
        assert(values.take(n - 1) =~= prior);
        let pv = monotonicity_violations(prior);
        let vv = monotonicity_violations(values);
        assert forall|i: int| 0 <= i < n - 1 implies last_present(prior, i) == last_present(
            values,
            i,
        ) by {
            lemma_last_present_prefix(values, n - 1, i);
        }
        assert forall|k: int| 0 <= k < vv.len() implies {
            let x = #[trigger] vv[k];
            &&& 0 <= x.sample_index < values.len()
            &&& values[x.sample_index as int] == Some(x.violating_value)
            &&& x.previous_value == last_present(values, x.sample_index as int)
            &&& f64_lt(x.violating_value, x.previous_value)
            &&& !is_lap_reset(x.violating_value, x.previous_value)
        } by {
            if k < pv.len() {
                assert(vv[k] == pv[k]);
                assert(prior[pv[k].sample_index as int] == values[pv[k].sample_index as int]);
            }
        }
        assert forall|i: int|
            0 <= i < values.len() && (#[trigger] values[i] matches Some(v) && f64_lt(
                v,
                last_present(values, i),
            ) && !is_lap_reset(v, last_present(values, i))) implies exists|k: int|
            0 <= k < vv.len() && vv[k].sample_index == i by {
            if i < n - 1 {
                assert(prior[i] == values[i]);
                let k = choose|k: int| 0 <= k < pv.len() && pv[k].sample_index == i;
                assert(vv[k] == pv[k]);
            } else {
                assert(vv[pv.len() as int].sample_index == i);
            }
        }
    }
}

/// The present sample at `i` starts a new lap: its distance lies below 50 m
/// while the present sample before it lay above 100 m.
pub open spec fn resets_at(values: Seq<Option<u64>>, i: int) -> bool {
    values[i] matches Some(v) && is_lap_reset(v, last_present(values, i))
}

/// The number of lap resets among the first `n` samples.
pub open spec fn resets_before(values: Seq<Option<u64>>, n: int) -> nat
    decreases n,
{
    if n <= 0 {
        0
    } else {
        resets_before(values, n - 1) + if resets_at(values, n - 1) {
            1nat
        } else {
            0nat
        }
    }
}

/// The lap that sample `i` lies in: lap 1, plus one for each reset up to
/// and including it.
pub open spec fn lap_of(values: Seq<Option<u64>>, i: int) -> nat {
    1 + resets_before(values, i + 1)
}

/// The resets among the first samples do not depend on what follows.
proof fn lemma_resets_prefix(values: Seq<Option<u64>>, m: int, n: int)
    requires
        0 <= n <= m <= values.len(),
    ensures
        resets_before(values.take(m), n) == resets_before(values, n),
    decreases n,
{
    if n > 0 {
        lemma_resets_prefix(values, m, n - 1);
        lemma_last_present_prefix(values, m, n - 1);
        assert(values.take(m)[n - 1] == values[n - 1]);
    }
}

/// The lap reached after any prefix of the samples is one more than the
/// lap resets in that prefix.
pub proof fn lemma_lap_counts_resets(values: Seq<Option<u64>>, n: int)
    requires
        0 <= n <= values.len(),
    ensures
        distance_scan(values.take(n)).1 == 1 + resets_before(values, n),
    decreases n,
{
    if n > 0 {
        lemma_lap_counts_resets(values, n - 1);
        lemma_scan_holds_last_present(values, n - 1);
        assert(values.take(n).drop_last() =~= values.take(n - 1));
        assert(values.take(n).last() == values[n - 1]);
    }
}

/// A violation is reported in the lap of its sample: lap 1 plus the resets
/// before it.
pub proof fn lemma_violation_lap_is_sample_lap(values: Seq<Option<u64>>)
    requires
        values.len() <= usize::MAX,
    ensures
        forall|k: int|
            0 <= k < monotonicity_violations(values).len() ==> {
                let x = #[trigger] monotonicity_violations(values)[k];
                &&& x.sample_index < values.len()
                &&& x.lap_number == lap_of(values, x.sample_index as int) as u32
            },
    decreases values.len(),
{
    if values.len() > 0 {
        let prior = values.drop_last();
        let n = values.len() as int;
        lemma_violation_lap_is_sample_lap(prior);
        lemma_lap_counts_resets(values, n - 1);
        lemma_scan_holds_last_present(values, n - 1);
        assert(values.take(n - 1) =~= prior);
        let pv = monotonicity_violations(prior);
        let vv = monotonicity_violations(values);
        assert forall|k: int| 0 <= k < vv.len() implies {
            let x = #[trigger] vv[k];
            &&& x.sample_index < values.len()
            &&& x.lap_number == lap_of(values, x.sample_index as int) as u32
        } by {
            if k < pv.len() {
                assert(vv[k] == pv[k]);
                lemma_resets_prefix(values, n - 1, pv[k].sample_index + 1);
            } else {
                assert(!resets_at(values, n - 1));
            }
        }
    }
}

/// The number of present samples among the first `n` whose lap, as a lap
/// number, is `lap`.
pub open spec fn samples_in_lap(values: Seq<Option<u64>>, n: int, lap: u32) -> nat
    decreases n,
{
    if n <= 0 {
        0
    } else {
        samples_in_lap(values, n - 1, lap) + if values[n - 1] is Some && lap_of(values, n - 1) as u32
            == lap {
            1nat
        } else {
            0nat
        }
    }
}

/// The samples of a lap among the first samples do not depend on what follows.
proof fn lemma_samples_in_lap_prefix(values: Seq<Option<u64>>, m: int, n: int, lap: u32)
    requires
        0 <= n <= m <= values.len(),
    ensures
        samples_in_lap(values.take(m), n, lap) == samples_in_lap(values, n, lap),
    decreases n,
{
    if n > 0 {
        lemma_samples_in_lap_prefix(values, m, n - 1, lap);
        lemma_resets_prefix(values, m, n);
        assert(values.take(m)[n - 1] == values[n - 1]);
    }
}

/// The per-lap counts record exactly the laps that have a present sample,
/// each with the number of present samples in it.
pub proof fn lemma_lap_counts_are_lap_sizes(values: Seq<Option<u64>>)
    ensures
        forall|lap: u32|
            lap_sample_counts(values).contains_key(lap) <==> #[trigger] samples_in_lap(
                values,
                values.len() as int,
                lap,
            ) > 0,
        forall|lap: u32|
            lap_sample_counts(values).contains_key(lap) ==> lap_sample_counts(values)[lap]
                == #[trigger] samples_in_lap(values, values.len() as int, lap),
    decreases values.len(),
{
    if values.len() > 0 {
        let prior = values.drop_last();
        let n = values.len() as int;
        lemma_lap_counts_are_lap_sizes(prior);
        assert(values.take(n - 1) =~= prior);
        assert(values.take(n) =~= values);
        lemma_lap_counts_resets(values, n);
        let before = lap_sample_counts(prior);
        let counts = lap_sample_counts(values);
        let new_lap = lap_of(values, n - 1) as u32;
        assert(distance_scan(values).1 == lap_of(values, n - 1));
        assert forall|lap: u32|
            (counts.contains_key(lap) <==> #[trigger] samples_in_lap(values, n, lap) > 0) && (
            counts.contains_key(lap) ==> counts[lap] == samples_in_lap(values, n, lap)) by {
            lemma_samples_in_lap_prefix(values, n - 1, n - 1, lap);
            assert(samples_in_lap(prior, n - 1, lap) == samples_in_lap(values, n - 1, lap));
            assert(before.contains_key(lap) <==> samples_in_lap(prior, n - 1, lap) > 0);
            match values.last() {
                Some(v) => {
                    assert(values[n - 1] is Some);
                    if lap == new_lap {
                        assert(counts.contains_key(lap));
                    } else {
                        assert(counts.contains_key(lap) == before.contains_key(lap));
                    }
                },
                None => {
                    assert(counts == before);
                },
            }
        }
    }
}

/// Both scans split laps alike: every violation lies in a lap that the
/// per-lap sample counts record, so the two-percent test finds its count.
pub proof fn lemma_violation_laps_are_counted(values: Seq<Option<u64>>)
    ensures
        forall|k: int|
            0 <= k < monotonicity_violations(values).len() ==> lap_sample_counts(
                values,
            ).contains_key(#[trigger] monotonicity_violations(values)[k].lap_number),
    decreases values.len(),
{
    if values.len() > 0 {
        let prior = values.drop_last();
        lemma_violation_laps_are_counted(prior);
        let counts = lap_sample_counts(values);
        let before = lap_sample_counts(prior);
        let viol = monotonicity_violations(values);
        let pv = monotonicity_violations(prior);
        let (prev, lap) = distance_scan(prior);
        match values.last() {
            Some(v) => {
                let new_lap = distance_scan(values).1 as u32;
                assert(counts.contains_key(new_lap));
                assert forall|k: int| 0 <= k < viol.len() implies counts.contains_key(
                    #[trigger] viol[k].lap_number,
                ) by {
                    if k < pv.len() {
                        assert(viol[k] == pv[k]);
                        assert(before.contains_key(pv[k].lap_number));
                    } else {
                        assert(!is_lap_reset(v, prev));
                        assert(viol[k].lap_number == lap as u32);
                        assert(distance_scan(values).1 == lap);
                    }
                }
            },
            None => {
                assert(viol == pv);
                assert(counts == before);
            },
        }
    }
}

/// Finds the places where the lap distance goes backwards within a lap,
/// leaving out lap resets.
pub fn validate_lap_distance_monotonicity(values: &[Option<u64>]) -> (r: Vec<MonotonicityViolation>)
    requires
        values@.len() < u32::MAX,
    ensures
        r@ == monotonicity_violations(values@),
{
    let mut violations: Vec<MonotonicityViolation> = Vec::new();
    let mut prev: u64 = F64_NEG_INFINITY_BITS;
    let mut lap: u32 = 1;
    let mut i: usize = 0;
    while i < values.len()
        invariant
            0 <= i <= values@.len(),
            values@.len() < u32::MAX,
            (prev, lap as nat) == distance_scan(values@.take(i as int)),
            violations@ == monotonicity_violations(values@.take(i as int)),
        decreases values.len() - i,
    {
        proof {
            assert(values@.take(i + 1).drop_last() =~= values@.take(i as int));
            lemma_lap_bound(values@.take(i as int));
        }
        match values[i] {
            Some(v) => {
                let reset = f64_bits_lt(v, LAP_RESET_THRESHOLD_BITS) && f64_bits_lt(
                    LAP_RESET_PREV_MIN_BITS,
                    prev,
                );
                if reset {
                    lap = lap + 1;
                } else if f64_bits_lt(v, prev) {
                    violations.push(
                        MonotonicityViolation {
                            lap_number: lap,
                            sample_index: i,
                            previous_value: prev,
                            violating_value: v,
                        },
                    );
                }
                prev = v;
            },
            None => {},
        }
        i = i + 1;
    }
    proof {
        assert(values@.take(values@.len() as int) =~= values@);
    }
    violations
}

/// Counts the present distances in each lap, laps split where the distance
/// resets as in [`validate_lap_distance_monotonicity`].
pub fn compute_lap_sample_counts(values: &[Option<u64>]) -> (r: HashMap<u32, usize>)
    requires
        values@.len() < u32::MAX,
    ensures
        r@.dom() == lap_sample_counts(values@).dom(),
        forall|lap: u32| #[trigger]
            r@.contains_key(lap) ==> r@[lap] == lap_sample_counts(values@)[lap],
{
    let mut counts: HashMap<u32, usize> = HashMap::new();
    let mut prev: u64 = F64_NEG_INFINITY_BITS;
    let mut lap: u32 = 1;
    let mut i: usize = 0;
    while i < values.len()
        invariant
            0 <= i <= values@.len(),
            values@.len() < u32::MAX,
            (prev, lap as nat) == distance_scan(values@.take(i as int)),
            counts@.dom() == lap_sample_counts(values@.take(i as int)).dom(),
            forall|l: u32| #[trigger]
                counts@.contains_key(l) ==> counts@[l] == lap_sample_counts(
                    values@.take(i as int),
                )[l] && counts@[l] <= i,
        decreases values.len() - i,
    {
        proof {
            assert(values@.take(i + 1).drop_last() =~= values@.take(i as int));
            lemma_lap_bound(values@.take(i as int));
        }
        match values[i] {
            Some(v) => {
                let reset = f64_bits_lt(v, LAP_RESET_THRESHOLD_BITS) && f64_bits_lt(
                    LAP_RESET_PREV_MIN_BITS,
                    prev,
                );
                if reset {
                    lap = lap + 1;
                }
                let n: usize = match counts.get(&lap) {
                    Some(c) => *c + 1,
                    None => 1,
                };
                counts.insert(lap, n);
                prev = v;
            },
            None => {},
        }
        proof {
            let s = lap_sample_counts(values@.take(i + 1));
            assert(counts@.dom() =~= s.dom());
        }
        i = i + 1;
    }
    proof {
        assert(values@.take(values@.len() as int) =~= values@);
    }
    counts
}

/// Number of occurrences of `x` in `s`.
pub open spec fn occurrences(s: Seq<u32>, x: u32) -> nat
    decreases s.len(),
{
    if s.len() == 0 {
        0
    } else {
        occurrences(s.drop_last(), x) + if s.last() == x {
            1nat
        } else {
            0nat
        }
    }
}

/// The number of samples attributed to a lap: its recorded count, or else an
/// even share of all samples over the recorded laps.
pub open spec fn lap_samples(counts: Map<u32, usize>, total_samples: nat, lap: u32) -> nat {
    if counts.contains_key(lap) {
        counts[lap] as nat
    } else {
        total_samples / if counts.len() == 0 {
            1
        } else {
            counts.len()
        }
    }
}

/// A lap's violations exceed two percent of its samples.
pub open spec fn lap_exceeds(violations: nat, samples: nat) -> bool {
    samples > 0 && violations * 100 > samples * 2
}

/// Some lap has lap-distance violations in more than two percent of its samples.
pub open spec fn excessive_violations(
    violation_laps: Seq<u32>,
    counts: Map<u32, usize>,
    total_samples: nat,
) -> bool {
    total_samples > 0 && exists|i: int|
        0 <= i < violation_laps.len() && #[trigger] lap_exceeds(
            occurrences(violation_laps, violation_laps[i]),
            lap_samples(counts, total_samples, violation_laps[i]),
        )
}

/// The lap numbers of a sequence of violations.
pub open spec fn violation_laps(violations: Seq<MonotonicityViolation>) -> Seq<u32> {
    violations.map_values(|v: MonotonicityViolation| v.lap_number)
}

/// Counts the violations in lap `x`.
fn count_occurrences(s: &[MonotonicityViolation], x: u32) -> (r: usize)
    ensures
        r == occurrences(violation_laps(s@), x),
{
    let mut c: usize = 0;
    let mut i: usize = 0;
    while i < s.len()
        invariant
            0 <= i <= s@.len(),
            c == occurrences(violation_laps(s@.take(i as int)), x),
            c <= i,
        decreases s.len() - i,
    {
        proof {
            assert(violation_laps(s@.take(i + 1)).drop_last() =~= violation_laps(
                s@.take(i as int),
            ));
        }
        if s[i].lap_number == x {
            c = c + 1;
        }
        i = i + 1;
    }
    proof {
        assert(s@.take(s@.len() as int) =~= s@);
    }
    c
}

/// Checks whether any single lap has lap-distance violations in more than
/// two percent of its samples. `lap_sample_counts` maps lap numbers to their
/// sample counts; laps without an entry get an even share of `total_samples`.
pub fn has_excessive_violations(
    violations: &[MonotonicityViolation],
    lap_sample_counts: &HashMap<u32, usize>,
    total_samples: usize,
) -> (r: bool)
    ensures
        r == excessive_violations(
            violation_laps(violations@),
            lap_sample_counts@,
            total_samples as nat,
        ),
{
    let ghost laps = violation_laps(violations@);
    if total_samples == 0 || violations.len() == 0 {
        return false;
    }
    let lap_count = if lap_sample_counts.len() == 0 {
        1
    } else {
        lap_sample_counts.len()
    };
    let fallback = total_samples / lap_count;
    let mut i: usize = 0;
    while i < violations.len()
        invariant
            0 <= i <= violations@.len(),
            laps == violation_laps(violations@),
            total_samples > 0,
            lap_count == (if lap_sample_counts@.len() == 0 {
                1
            } else {
                lap_sample_counts@.len()
            }),
            fallback == total_samples / lap_count,
            forall|j: int|
                0 <= j < i ==> !#[trigger] lap_exceeds(
                    occurrences(laps, laps[j]),
                    lap_samples(lap_sample_counts@, total_samples as nat, laps[j]),
                ),
        decreases violations.len() - i,
    {
        let lap = violations[i].lap_number;
        let samples = match lap_sample_counts.get(&lap) {
            Some(n) => *n,
            None => fallback,
        };
        let count = count_occurrences(violations, lap);
        proof {
            lemma_occurrences_bound(laps, lap);
        }
        assert(samples == lap_samples(lap_sample_counts@, total_samples as nat, lap));
        if samples > 0 && (count as u128) * 100 > (samples as u128) * 2 {
            assert(lap_exceeds(
                occurrences(laps, laps[i as int]),
                lap_samples(lap_sample_counts@, total_samples as nat, laps[i as int]),
            ));
            return true;
        }
        i = i + 1;
    }
    false
}

/// Occurrences are bounded by the length.
proof fn lemma_occurrences_bound(s: Seq<u32>, x: u32)
    ensures
        occurrences(s, x) <= s.len(),
    decreases s.len(),
{
    if s.len() > 0 {
        lemma_occurrences_bound(s.drop_last(), x);
    }
}

} // verus!
