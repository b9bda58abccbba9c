//! A fixed logarithmic histogram: sixteen bins per power of two.
use vstd::prelude::*;

verus! {

pub const BINS: usize = 1024;

/// Bins that a 64-bit duration can fall into.
pub const USED_BINS: usize = 976;

/// The bin of a duration. Short ones have a bin each; from there on every
/// doubling takes sixteen bins.
pub open spec fn bin_of(micros: int) -> int
    decreases micros,
{
    if micros < 32 { micros } else { 16 + bin_of(micros / 2) }
}

/// The longest duration of a bin.
pub open spec fn bin_upper(bin: int) -> int
    decreases bin,
{
    if bin < 32 { bin } else { 2 * bin_upper(bin - 16) + 1 }
}

/// Observations in the first `count` bins.
pub open spec fn observed(bins: Seq<u64>, count: int) -> int
    decreases count,
{
    if count <= 0 { 0 } else { observed(bins, count - 1) + bins[count - 1] }
}

pub struct Histogram {
    pub bins: Vec<u64>,
    pub count: u64,
    pub min: u64,
    pub max: u64,
}

/// The mathematical content of a [`Histogram`].
pub struct Observations {
    pub bins: Seq<u64>,
    pub count: u64,
    pub min: u64,
    pub max: u64,
}

impl View for Histogram {
    type V = Observations;

    open spec fn view(&self) -> Observations {
        Observations { bins: self.bins@, count: self.count, min: self.min, max: self.max }
    }
}

pub open spec fn saturating_plus_one(value: u64) -> u64 {
    if value < u64::MAX { (value + 1) as u64 } else { u64::MAX }
}

/// How many observations the given percentage asks for.
pub open spec fn percentile_target(count: u64, percent: u64) -> int {
    (count * percent + 99) / 100
}

impl Observations {
    /// Nothing was observed yet.
    pub open spec fn none() -> Observations {
        Observations {
            bins: Seq::new(BINS as nat, |i: int| 0u64),
            count: 0,
            min: u64::MAX,
            max: 0,
        }
    }

    pub open spec fn wf(self) -> bool {
        &&& self.bins.len() == BINS
        &&& forall|i: int| USED_BINS <= i < BINS ==> self.bins[i] == 0
        &&& self.count <= observed(self.bins, BINS as int)
    }

    pub open spec fn adding(self, micros: u64) -> Observations {
        let bin = bin_of(micros as int);
        Observations {
            bins: self.bins.update(bin, saturating_plus_one(self.bins[bin])),
            count: saturating_plus_one(self.count),
            min: if micros < self.min { micros } else { self.min },
            max: if micros > self.max { micros } else { self.max },
        }
    }

    /// `bin` is the first one up to which enough observations lie.
    pub open spec fn reaches(self, target: int, bin: int) -> bool {
        &&& 0 <= bin < BINS
        &&& observed(self.bins, bin + 1) >= target
        &&& forall|earlier: int|
            0 <= earlier < bin ==> #[trigger] observed(self.bins, earlier + 1) < target
    }

    /// `value` bounds the percentile from above: the end of the bin that holds
    /// it, and never more than the longest observation.
    pub open spec fn bounds_percentile(self, percent: u64, value: u64) -> bool {
        let target = percentile_target(self.count, percent);
        ||| exists|bin: int| #[trigger]
            self.reaches(target, bin) && value == (if bin_upper(bin) < self.max {
                bin_upper(bin)
            } else {
                self.max as int
            })
        ||| observed(self.bins, BINS as int) < target && value == self.max
    }
}

proof fn lemma_bin_range(micros: int)
    requires
        0 <= micros,
    ensures
        0 <= bin_of(micros),
        micros >= 16 ==> bin_of(micros) >= 16,
    decreases micros,
{
    if micros >= 32 {
        lemma_bin_range(micros / 2);
    }
}

proof fn lemma_bin_limit(micros: int, doublings: nat, limit: int)
    requires
        0 <= micros < limit,
        limit == limit_of(doublings),
    ensures
        bin_of(micros) < 32 + 16 * doublings,
    decreases doublings,
{
    if micros >= 32 {
        assert(doublings > 0);
        lemma_bin_limit(micros / 2, (doublings - 1) as nat, limit / 2);
    }
}

spec fn limit_of(doublings: nat) -> int
    decreases doublings,
{
    if doublings == 0 { 32 } else { 2 * limit_of((doublings - 1) as nat) }
}

proof fn lemma_limit_64()
    ensures
        limit_of(59) == 0x1_0000_0000_0000_0000,
{
    reveal_with_fuel(limit_of, 60);
}

proof fn lemma_bin_used(micros: u64)
    ensures
        0 <= bin_of(micros as int) < USED_BINS,
{
    lemma_bin_range(micros as int);
    lemma_limit_64();
    lemma_bin_limit(micros as int, 59, 0x1_0000_0000_0000_0000);
}

proof fn lemma_upper_limit(bin: int, doublings: nat)
    requires
        0 <= bin < 32 + 16 * doublings,
    ensures
        0 <= bin_upper(bin) < limit_of(doublings),
    decreases doublings,
{
    if bin >= 32 {
        lemma_upper_limit(bin - 16, (doublings - 1) as nat);
    } else {
        lemma_limit_at_least(doublings);
    }
}

proof fn lemma_limit_at_least(doublings: nat)
    ensures
        limit_of(doublings) >= 32,
    decreases doublings,
{
    if doublings > 0 {
        lemma_limit_at_least((doublings - 1) as nat);
    }
}

proof fn lemma_observed_update(bins: Seq<u64>, bin: int, value: u64, count: int)
    requires
        0 <= bin < bins.len(),
        0 <= count <= bins.len(),
    ensures
        observed(bins.update(bin, value), count) == observed(bins, count) + (if bin < count {
            value - bins[bin]
        } else {
            0
        }),
    decreases count,
{
    if count > 0 {
        lemma_observed_update(bins, bin, value, count - 1);
    }
}

proof fn lemma_observed_at_least(bins: Seq<u64>, bin: int, count: int)
    requires
        0 <= bin < count <= bins.len(),
    ensures
        observed(bins, count) >= bins[bin],
        observed(bins, bin) >= 0,
    decreases count,
{
    lemma_observed_nonnegative(bins, bin);
    if bin == count - 1 {
        lemma_observed_nonnegative(bins, count - 1);
    } else {
        lemma_observed_at_least(bins, bin, count - 1);
    }
}

proof fn lemma_observed_nonnegative(bins: Seq<u64>, count: int)
    requires
        count <= bins.len(),
    ensures
        observed(bins, count) >= 0,
    decreases count,
{
    if count > 0 {
        lemma_observed_nonnegative(bins, count - 1);
    }
}

proof fn lemma_observed_zeros(count: int)
    requires
        count <= BINS,
    ensures
        observed(Seq::new(BINS as nat, |i: int| 0u64), count) == 0,
    decreases count,
{
    if count > 0 {
        lemma_observed_zeros(count - 1);
    }
}

fn bin_index(micros: u64) -> (r: usize)
    ensures
        r == bin_of(micros as int),
        r < USED_BINS,
{
    proof {
        lemma_bin_used(micros);
    }
    let mut rest: u64 = micros;
    let mut base: usize = 0;
    while rest >= 32
        invariant
            base + bin_of(rest as int) == bin_of(micros as int),
            bin_of(micros as int) < USED_BINS,
        decreases rest,
    {
        proof {
            lemma_bin_range(rest as int / 2);
        }
        rest = rest / 2;
        base = base + 16;
    }
    base + rest as usize
}

/// The end of a bin.
fn upper_of(bin: usize) -> (r: u64)
    requires
        bin < USED_BINS,
    ensures
        r == bin_upper(bin as int),
    decreases bin,
{
    proof {
        lemma_limit_64();
        lemma_upper_limit(bin as int, 59);
    }
    if bin < 32 {
        bin as u64
    } else {
        2 * upper_of(bin - 16) + 1
    }
}

impl Histogram {
    pub fn new() -> (r: Self)
        ensures
            r@.wf(),
            r@ == Observations::none(),
    {
        let mut bins: Vec<u64> = Vec::new();
        bins.resize(BINS, 0);
        proof {
            assert(bins@ =~= Seq::new(BINS as nat, |i: int| 0u64));
            lemma_observed_zeros(BINS as int);
        }
        Histogram { bins, count: 0, min: u64::MAX, max: 0 }
    }

    pub fn add(&mut self, micros: u64)
        requires
            old(self)@.wf(),
        ensures
            final(self)@ == old(self)@.adding(micros),
            final(self)@.wf(),
    {
        let bin: usize = bin_index(micros);
        let ghost before = self.bins@;
        let raised: u64 = self.bins[bin].saturating_add(1);
        self.bins[bin] = raised;
        self.count = self.count.saturating_add(1);
        if micros < self.min {
            self.min = micros;
        }
        if micros > self.max {
            self.max = micros;
        }
        proof {
            assert(self.bins@ =~= before.update(bin as int, raised));
            lemma_observed_update(before, bin as int, raised, BINS as int);
            lemma_observed_at_least(self.bins@, bin as int, BINS as int);
        }
    }

    /// An upper bound of the given percentile.
    pub fn percentile_upper(&self, percent: u64) -> (r: u64)
        requires
            self@.wf(),
        ensures
            self@.bounds_percentile(percent, r),
            r <= self@.max,
    {
        let wide_count: u128 = self.count as u128;
        let wide_percent: u128 = percent as u128;
        assert(0 <= wide_count * wide_percent <= 0xffff_ffff_ffff_ffff * 0xffff_ffff_ffff_ffff)
            by (nonlinear_arith)
            requires
                wide_count <= 0xffff_ffff_ffff_ffff,
                wide_percent <= 0xffff_ffff_ffff_ffff,
        ;
        let product: u128 = wide_count * wide_percent;
        let target: u128 = (product + 99) / 100;
        let mut total: u128 = 0;
        let mut index: usize = 0;
        while index < BINS
            invariant
                index <= BINS,
                self@.wf(),
                target == percentile_target(self.count, percent),
                total == observed(self.bins@, index as int),
                total <= index * 0xffff_ffff_ffff_ffff,
                forall|earlier: int|
                    0 <= earlier < index ==> #[trigger] observed(self.bins@, earlier + 1) < target,
                index > 0 ==> total < target,
            decreases BINS - index,
        {
            total = total + self.bins[index] as u128;
            if total >= target {
                proof {
                    assert(self@.reaches(target as int, index as int));
                    assert(index < USED_BINS);
                }
                let upper: u64 = upper_of(index);
                return if upper < self.max {
                    upper
                } else {
                    self.max
                };
            }
            index = index + 1;
        }
        self.max
    }
}

/// The shortest duration of a bin.
pub open spec fn bin_lower(bin: int) -> int
    decreases bin,
{
    if bin < 32 { bin } else { 2 * bin_lower(bin - 16) }
}

proof fn lemma_bin_width(bin: int)
    requires
        16 <= bin,
    ensures
        16 * (bin_upper(bin) + 1 - bin_lower(bin)) <= bin_lower(bin),
    decreases bin,
{
    if bin >= 32 {
        lemma_bin_width(bin - 16);
    }
}

/// A duration lies within its bin, and the end of the bin overstates it by at
/// most a sixteenth.
pub proof fn bins_overstate_by_a_sixteenth(micros: int)
    requires
        0 <= micros,
    ensures
        bin_lower(bin_of(micros)) <= micros <= bin_upper(bin_of(micros)),
        16 * (bin_upper(bin_of(micros)) - micros) <= micros,
    decreases micros,
{
    lemma_bin_range(micros);
    if micros >= 32 {
        lemma_bin_range(micros / 2);
        bins_overstate_by_a_sixteenth(micros / 2);
    }
    if micros >= 16 {
        lemma_bin_width(bin_of(micros));
    }
}

/// A longer duration never falls into an earlier bin.
pub proof fn longer_durations_never_fall_back(shorter: int, longer: int)
    requires
        0 <= shorter <= longer,
    ensures
        bin_of(shorter) <= bin_of(longer),
    decreases longer,
{
    lemma_bin_range(longer);
    if shorter >= 32 {
        longer_durations_never_fall_back(shorter / 2, longer / 2);
    } else if longer >= 32 {
        lemma_bin_range(longer / 2);
        assert(bin_of(longer / 2) >= 16);
    }
}

/// What is held of these durations after each was added.
pub open spec fn built(samples: Seq<u64>) -> Observations
    decreases samples.len(),
{
    if samples.len() == 0 {
        Observations::none()
    } else {
        built(samples.drop_last()).adding(samples.last())
    }
}

pub open spec fn no_longer() -> spec_fn(u64, u64) -> bool {
    |a: u64, b: u64| a <= b
}

/// The duration of the given rank, counted from one, in ascending order.
pub open spec fn nth_smallest(samples: Seq<u64>, rank: int) -> u64 {
    samples.sort_by(no_longer())[rank - 1]
}

/// Durations that fall into `bin` or an earlier one.
spec fn within(samples: Seq<u64>, bin: int) -> int
    decreases samples.len(),
{
    if samples.len() == 0 {
        0
    } else {
        within(samples.drop_last(), bin) + (if bin_of(samples.last() as int) <= bin {
            1int
        } else {
            0
        })
    }
}

spec fn falls_within(bin: int) -> spec_fn(u64) -> bool {
    |micros: u64| bin_of(micros as int) <= bin
}

proof fn lemma_within_bounds(samples: Seq<u64>, bin: int)
    ensures
        0 <= within(samples, bin) <= samples.len(),
    decreases samples.len(),
{
    if samples.len() > 0 {
        lemma_within_bounds(samples.drop_last(), bin);
    }
}

/// The count does not depend on the order.
proof fn lemma_within_unordered(samples: Seq<u64>, bin: int)
    ensures
        within(samples, bin) == samples.to_multiset().filter(falls_within(bin)).len(),
    decreases samples.len(),
{
    broadcast use vstd::seq_lib::group_to_multiset_ensures;
    broadcast use vstd::multiset::group_multiset_axioms;

    let chosen = falls_within(bin);
    if samples.len() == 0 {
        assert(samples.to_multiset().len() == 0);
        assert(samples.to_multiset().filter(chosen) =~= vstd::multiset::Multiset::empty()) by {
            assert forall|x: u64| samples.to_multiset().filter(chosen).count(x) == 0 by {
                assert(samples.to_multiset().count(x) <= samples.to_multiset().len());
            }
        }
    } else {
        let before = samples.drop_last();
        let last = samples.last();
        lemma_within_unordered(before, bin);
        assert(samples =~= before.push(last));
        let old_set = before.to_multiset();
        assert(samples.to_multiset() =~= old_set.insert(last));
        if chosen(last) {
            assert(old_set.insert(last).filter(chosen) =~= old_set.filter(chosen).insert(last));
        } else {
            assert(old_set.insert(last).filter(chosen) =~= old_set.filter(chosen));
        }
    }
}

proof fn lemma_within_at_least(samples: Seq<u64>, bin: int, count: int)
    requires
        0 <= count <= samples.len(),
        forall|i: int| 0 <= i < count ==> bin_of(#[trigger] samples[i] as int) <= bin,
    ensures
        within(samples, bin) >= count,
    decreases samples.len(),
{
    if samples.len() > 0 {
        let before = samples.drop_last();
        let fewer = if count == samples.len() {
            count - 1
        } else {
            count
        };
        assert forall|i: int| 0 <= i < fewer implies bin_of(#[trigger] before[i] as int) <= bin by {
            assert(before[i] == samples[i]);
        }
        lemma_within_at_least(before, bin, fewer);
        assert(samples.last() == samples[samples.len() - 1]);
    }
}

proof fn lemma_within_at_most(samples: Seq<u64>, bin: int, count: int)
    requires
        0 <= count,
        forall|i: int| count <= i < samples.len() ==> bin_of(#[trigger] samples[i] as int) > bin,
    ensures
        within(samples, bin) <= count,
    decreases samples.len(),
{
    lemma_within_bounds(samples, bin);
    if samples.len() > count {
        let before = samples.drop_last();
        assert forall|i: int| count <= i < before.len() implies bin_of(#[trigger] before[i] as int)
            > bin by {
            assert(before[i] == samples[i]);
        }
        lemma_within_at_most(before, bin, count);
        assert(samples.last() == samples[samples.len() - 1]);
    }
}

/// The bins hold every duration, and the ends are those of the durations.
proof fn lemma_built(samples: Seq<u64>)
    requires
        samples.len() < u64::MAX,
    ensures
        built(samples).bins.len() == BINS,
        built(samples).count == samples.len(),
        forall|bin: int|
            0 <= bin <= BINS ==> #[trigger] observed(built(samples).bins, bin) == within(
                samples,
                bin - 1,
            ),
    decreases samples.len(),
{
    if samples.len() == 0 {
        assert forall|bin: int| 0 <= bin <= BINS implies #[trigger] observed(
            built(samples).bins,
            bin,
        ) == within(samples, bin - 1) by {
            lemma_observed_zeros(bin);
        }
    } else {
        let before = samples.drop_last();
        let last = samples.last();
        lemma_built(before);
        lemma_bin_used(last);
        let bins = built(before).bins;
        let at = bin_of(last as int);
        lemma_observed_at_least(bins, at, BINS as int);
        lemma_within_bounds(before, BINS - 1);
        assert(observed(bins, BINS as int) == within(before, BINS - 1));
        assert(bins[at] < u64::MAX);
        assert forall|bin: int| 0 <= bin <= BINS implies #[trigger] observed(
            built(samples).bins,
            bin,
        ) == within(samples, bin - 1) by {
            lemma_observed_update(bins, at, saturating_plus_one(bins[at]), bin);
            assert(observed(bins, bin) == within(before, bin - 1));
        }
    }
}

/// The ends that are kept are the shortest and the longest duration.
pub proof fn ends_are_observed(samples: Seq<u64>)
    requires
        samples.len() > 0,
    ensures
        samples.contains(built(samples).min),
        samples.contains(built(samples).max),
        forall|i: int|
            0 <= i < samples.len() ==> built(samples).min <= #[trigger] samples[i] <= built(
                samples,
            ).max,
    decreases samples.len(),
{
    let before = samples.drop_last();
    let last = samples.last();
    assert(samples[samples.len() - 1] == last);
    if before.len() > 0 {
        ends_are_observed(before);
        let shortest = choose|i: int| 0 <= i < before.len() && before[i] == built(before).min;
        let longest = choose|i: int| 0 <= i < before.len() && before[i] == built(before).max;
        assert(samples[shortest] == before[shortest]);
        assert(samples[longest] == before[longest]);
        assert forall|i: int| 0 <= i < samples.len() implies built(samples).min
            <= #[trigger] samples[i] <= built(samples).max by {
            if i < before.len() {
                assert(samples[i] == before[i]);
            }
        }
    } else {
        assert(built(before) == Observations::none());
        assert(built(samples).min == last);
        assert(built(samples).max == last);
    }
}

proof fn lemma_upper_at_least(bin: int)
    requires
        0 <= bin,
    ensures
        bin_upper(bin) >= bin,
    decreases bin,
{
    if bin >= 32 {
        lemma_upper_at_least(bin - 16);
    }
}

proof fn lemma_upper_ascends(a: int, b: int)
    requires
        0 <= a <= b,
    ensures
        bin_upper(a) <= bin_upper(b),
    decreases b,
{
    if a >= 32 {
        lemma_upper_ascends(a - 16, b - 16);
    } else {
        lemma_upper_at_least(b);
    }
}

proof fn lemma_target_range(count: u64, percent: u64)
    requires
        count > 0,
        1 <= percent <= 100,
    ensures
        1 <= percentile_target(count, percent) <= count,
        percent == 100 ==> percentile_target(count, percent) == count,
{
    let product = count * percent;
    assert(count <= product <= 100 * count) by (nonlinear_arith)
        requires
            product == count * percent,
            count > 0,
            1 <= percent <= 100,
    ;
}

/// The durations in ascending order.
proof fn lemma_in_order(samples: Seq<u64>)
    ensures
        ({
            let ordered = samples.sort_by(no_longer());
            &&& ordered.len() == samples.len()
            &&& ordered.to_multiset() == samples.to_multiset()
            &&& forall|i: int, j: int| 0 <= i <= j < ordered.len() ==> ordered[i] <= ordered[j]
            &&& forall|i: int| 0 <= i < ordered.len() ==> samples.contains(#[trigger] ordered[i])
        }),
{
    broadcast use vstd::seq_lib::group_to_multiset_ensures;

    let leq = no_longer();
    let ordered = samples.sort_by(leq);
    assert(vstd::relations::total_ordering(leq));
    samples.lemma_sort_by_ensures(leq);
    assert(ordered.to_multiset().len() == samples.to_multiset().len());
    assert forall|i: int, j: int| 0 <= i <= j < ordered.len() implies ordered[i] <= ordered[j] by {
        if i < j {
            assert(leq(ordered[i], ordered[j]));
        }
    }
    assert forall|i: int| 0 <= i < ordered.len() implies samples.contains(#[trigger] ordered[i]) by {
        assert(ordered.contains(ordered[i]));
    }
}

/// The first bin up to which `rank` durations lie is that of the duration with
/// this rank.
proof fn lemma_reached_bin(samples: Seq<u64>, rank: int, bin: int)
    requires
        samples.len() < u64::MAX,
        1 <= rank <= samples.len(),
        built(samples).reaches(rank, bin),
    ensures
        bin == bin_of(nth_smallest(samples, rank) as int),
{
    let ordered = samples.sort_by(no_longer());
    let ranked = nth_smallest(samples, rank);
    let home = bin_of(ranked as int);
    lemma_in_order(samples);
    lemma_built(samples);
    lemma_bin_used(ranked);
    assert forall|i: int| 0 <= i < rank implies bin_of(#[trigger] ordered[i] as int) <= home by {
        longer_durations_never_fall_back(ordered[i] as int, ranked as int);
    }
    lemma_within_at_least(ordered, home, rank);
    lemma_within_unordered(ordered, home);
    lemma_within_unordered(samples, home);
    assert(observed(built(samples).bins, home + 1) == within(samples, home));
    assert(observed(built(samples).bins, bin + 1) == within(samples, bin));
    if bin < home {
        assert forall|i: int| rank - 1 <= i < ordered.len() implies bin_of(
            #[trigger] ordered[i] as int,
        ) > bin by {
            longer_durations_never_fall_back(ranked as int, ordered[i] as int);
        }
        lemma_within_at_most(ordered, bin, rank - 1);
        lemma_within_unordered(ordered, bin);
        lemma_within_unordered(samples, bin);
    }
}

/// What bounds a percentile is the end of the bin of the duration with its
/// rank, and never more than the longest duration.
proof fn lemma_bound_value(samples: Seq<u64>, percent: u64, value: u64)
    requires
        0 < samples.len() < u64::MAX,
        1 <= percent <= 100,
        built(samples).bounds_percentile(percent, value),
    ensures
        ({
            let rank = percentile_target(samples.len() as u64, percent);
            let end = bin_upper(bin_of(nth_smallest(samples, rank) as int));
            &&& 1 <= rank <= samples.len()
            &&& value == (if end < built(samples).max {
                end
            } else {
                built(samples).max as int
            })
        }),
{
    let held = built(samples);
    let rank = percentile_target(samples.len() as u64, percent);
    lemma_built(samples);
    lemma_target_range(samples.len() as u64, percent);
    lemma_in_order(samples);
    assert(observed(held.bins, BINS as int) == within(samples, BINS - 1));
    assert forall|i: int| 0 <= i < samples.len() implies bin_of(#[trigger] samples[i] as int) <= BINS
        - 1 by {
        lemma_bin_used(samples[i]);
    }
    lemma_within_at_least(samples, BINS - 1, samples.len() as int);
    let bin = choose|bin: int| #[trigger]
        held.reaches(rank, bin) && value == (if bin_upper(bin) < held.max {
            bin_upper(bin)
        } else {
            held.max as int
        });
    lemma_reached_bin(samples, rank, bin);
}

/// The bound of a percentile is never below the duration with its rank,
/// overstates it by at most a sixteenth, and never exceeds the longest
/// duration, which it is for the whole.
pub proof fn percentiles_bound_their_rank(samples: Seq<u64>, percent: u64, value: u64)
    requires
        0 < samples.len() < u64::MAX,
        1 <= percent <= 100,
        built(samples).bounds_percentile(percent, value),
    ensures
        ({
            let ranked = nth_smallest(
                samples,
                percentile_target(samples.len() as u64, percent),
            );
            &&& samples.contains(ranked)
            &&& ranked <= value <= built(samples).max
            &&& value - ranked <= ranked as int / 16
            &&& ranked < 16 ==> value == ranked
            &&& percent == 100 ==> value == built(samples).max
        }),
{
    let rank = percentile_target(samples.len() as u64, percent);
    let ranked = nth_smallest(samples, rank);
    lemma_bound_value(samples, percent, value);
    lemma_target_range(samples.len() as u64, percent);
    lemma_in_order(samples);
    ends_are_observed(samples);
    bins_overstate_by_a_sixteenth(ranked as int);
    let ordered = samples.sort_by(no_longer());
    assert(samples.contains(ordered[rank - 1]));
    let place = choose|i: int| 0 <= i < samples.len() && samples[i] == ranked;
    assert(samples[place] <= built(samples).max);
    if percent == 100 {
        let longest = built(samples).max;
        broadcast use vstd::seq_lib::group_to_multiset_ensures;

        assert(samples.to_multiset().count(longest) > 0);
        assert(ordered.contains(longest));
        let i = choose|i: int| 0 <= i < ordered.len() && ordered[i] == longest;
        assert(ordered[i] <= ordered[rank - 1]);
    }
}

/// A larger percentage is never bounded by less.
pub proof fn larger_percentages_bound_no_less(
    samples: Seq<u64>,
    smaller: u64,
    larger: u64,
    lower: u64,
    upper: u64,
)
    requires
        0 < samples.len() < u64::MAX,
        1 <= smaller <= larger <= 100,
        built(samples).bounds_percentile(smaller, lower),
        built(samples).bounds_percentile(larger, upper),
    ensures
        lower <= upper,
{
    let count = samples.len() as u64;
    lemma_bound_value(samples, smaller, lower);
    lemma_bound_value(samples, larger, upper);
    lemma_in_order(samples);
    assert(count * smaller <= count * larger) by (nonlinear_arith)
        requires
            smaller <= larger,
    ;
    let first = nth_smallest(samples, percentile_target(count, smaller));
    let second = nth_smallest(samples, percentile_target(count, larger));
    assert(first <= second);
    longer_durations_never_fall_back(first as int, second as int);
    lemma_bin_used(first);
    lemma_upper_ascends(bin_of(first as int), bin_of(second as int));
}

} // verus!
