use vstd::prelude::*;

verus! {

/// How long to wait after a cycle that took `elapsed_ms` so that cycles
/// start `interval_ms` apart: the rest of the interval, or nothing at all
/// when the cycle overran it.
pub open spec fn delay_spec(interval_ms: int, elapsed_ms: int) -> int {
    if elapsed_ms < interval_ms {
        interval_ms - elapsed_ms
    } else {
        0
    }
}

/// The pause before the next cycle, in milliseconds.
pub fn cycle_delay(interval_ms: u64, elapsed_ms: u64) -> (r: u64)
    ensures
        r == delay_spec(interval_ms as int, elapsed_ms as int),
{
    if elapsed_ms < interval_ms {
        interval_ms - elapsed_ms
    } else {
        0
    }
}

/// A cycle that overruns the interval is followed at once by the next one;
/// otherwise the pause and the cycle together take exactly the interval.
/// The pause is never longer than the interval.
pub proof fn lemma_delay_absorbs_drift(interval_ms: u64, elapsed_ms: u64)
    ensures
        elapsed_ms >= interval_ms ==> delay_spec(interval_ms as int, elapsed_ms as int) == 0,
        elapsed_ms < interval_ms ==> elapsed_ms + delay_spec(interval_ms as int, elapsed_ms as int)
            == interval_ms,
        0 <= delay_spec(interval_ms as int, elapsed_ms as int) <= interval_ms,
{
}

/// The x coordinate of a sample taken at `utc_secs` seconds since the
/// epoch, moved by the local offset from UTC; `None` where that leaves the
/// range of `i64`.
pub fn local_timestamp(utc_secs: i64, offset_secs: i32) -> (r: Option<i64>)
    ensures
        r is Some <==> i64::MIN <= utc_secs + offset_secs <= i64::MAX,
        r is Some ==> r->Some_0 == utc_secs + offset_secs,
{
    utc_secs.checked_add(offset_secs as i64)
}

/// What a step reported in one cycle: the number that its output parsed
/// to, if any, and the time it took.
#[derive(Clone, Copy, Debug)]
pub struct Outcome<Y> {
    pub parsed: Option<Y>,
    pub duration: Y,
}

/// The sample of a step: the number it printed, or else its duration.
pub open spec fn sample_of<Y>(o: Outcome<Y>) -> Y {
    match o.parsed {
        Some(v) => v,
        None => o.duration,
    }
}

/// The sample that a step's outcome contributes.
pub fn sample_value<Y: Copy>(o: Outcome<Y>) -> (r: Y)
    ensures
        r == sample_of(o),
{
    match o.parsed {
        Some(v) => v,
        None => o.duration,
    }
}

/// The samples of one cycle, one per step: none at all when the run as a
/// whole failed; otherwise, for each step that has an outcome, its sample.
pub open spec fn cycle_samples_spec<Y>(run_ok: bool, outcomes: Seq<Option<Outcome<Y>>>) -> Seq<
    Option<Y>,
> {
    Seq::new(
        outcomes.len(),
        |i: int|
            if run_ok && outcomes[i] is Some {
                Some(sample_of(outcomes[i]->Some_0))
            } else {
                None
            },
    )
}

/// Turns the result of one run of the steps into the samples to record.
pub fn cycle_samples<Y: Copy>(run_ok: bool, outcomes: &Vec<Option<Outcome<Y>>>) -> (r: Vec<
    Option<Y>,
>)
    ensures
        r@ == cycle_samples_spec(run_ok, outcomes@),
{
    let mut res: Vec<Option<Y>> = Vec::new();
    let mut i: usize = 0;
    while i < outcomes.len()
        invariant
            i <= outcomes@.len(),
            res@ == cycle_samples_spec(run_ok, outcomes@).take(i as int),
        decreases outcomes@.len() - i,
    {
        let s = if run_ok {
            match outcomes[i] {
                Some(o) => Some(sample_value(o)),
                None => None,
            }
        } else {
            None
        };
        res.push(s);
        proof {
            assert(res@ =~= cycle_samples_spec(run_ok, outcomes@).take(i + 1));
        }
        i = i + 1;
    }
    proof {
        assert(res@ =~= cycle_samples_spec(run_ok, outcomes@));
    }
    res
}

} // verus!
