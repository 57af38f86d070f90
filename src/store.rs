use vstd::prelude::*;

use crate::chart::{palette, palette_colour, Chart, PALETTE_LEN};
use crate::schedule::{cycle_samples_spec, Outcome};
use crate::units::ChartUnits;

verus! {

/// The registry of all charts, in creation order. Charts are only ever
/// added; after start-up only their samples grow.
pub struct ChartStore<P> {
    pub charts: Vec<Chart<P>>,
}

/// Names of a sequence of charts, in order.
pub open spec fn names_of<P>(charts: Seq<Chart<P>>) -> Seq<Seq<char>> {
    charts.map_values(|c: Chart<P>| c.name@)
}

/// Whether the chart at `i` is the first one named `name`.
pub open spec fn first_named<P>(charts: Seq<Chart<P>>, name: Seq<char>, i: int) -> bool {
    &&& 0 <= i < charts.len()
    &&& charts[i].name@ == name
    &&& forall|j: int| 0 <= j < i ==> charts[j].name@ != name
}

/// The samples of the chart at `i` after a cycle whose samples were
/// `samples`: the chart's sample, where it has one, is appended.
pub open spec fn after_cycle<P>(points: Seq<P>, samples: Seq<Option<P>>, i: int) -> Seq<P> {
    if 0 <= i < samples.len() && samples[i] is Some {
        points.push(samples[i]->Some_0)
    } else {
        points
    }
}

/// Whether two charts agree in everything but their samples.
pub open spec fn same_settings<P>(a: Chart<P>, b: Chart<P>) -> bool {
    &&& a.name == b.name
    &&& a.units == b.units
    &&& a.smooth == b.smooth
    &&& a.colour == b.colour
}

impl<P> ChartStore<P> {
    /// An empty store.
    pub fn new() -> (r: Self)
        ensures
            r.charts@.len() == 0,
    {
        ChartStore { charts: Vec::new() }
    }

    /// Number of charts.
    pub fn len(&self) -> (r: usize)
        ensures
            r == self.charts@.len(),
    {
        self.charts.len()
    }

    /// Adds an empty chart after the existing ones; its colour is the next
    /// one of the palette, round-robin.
    pub fn create(&mut self, name: String, units: ChartUnits, smooth: bool)
        ensures
            final(self).charts@.len() == old(self).charts@.len() + 1,
            final(self).charts@.take(old(self).charts@.len() as int) == old(self).charts@,
            final(self).charts@.last().name == name,
            final(self).charts@.last().points@.len() == 0,
            final(self).charts@.last().units == units,
            final(self).charts@.last().smooth == smooth,
            final(self).charts@.last().colour@ == palette()[(old(self).charts@.len()
                % PALETTE_LEN as nat) as int],
    {
        let colour = palette_colour(self.charts.len());
        let chart = Chart::new(name, units, smooth, colour.to_owned());
        self.charts.push(chart);
        proof {
            assert(self.charts@.take(old(self).charts@.len() as int) =~= old(self).charts@);
        }
    }

    /// The first chart named `name`, or `None` where no chart has that name.
    pub fn get(&self, name: &String) -> (r: Option<&Chart<P>>)
        ensures
            r is None <==> (forall|j: int|
                0 <= j < self.charts@.len() ==> self.charts@[j].name@ != name@),
            r is Some ==> exists|i: int|
                first_named(self.charts@, name@, i) && *r->Some_0 == self.charts@[i],
    {
        let mut i: usize = 0;
        while i < self.charts.len()
            invariant
                i <= self.charts@.len(),
                forall|j: int| 0 <= j < i ==> self.charts@[j].name@ != name@,
            decreases self.charts@.len() - i,
        {
            if self.charts[i].name == *name {
                assert(first_named(self.charts@, name@, i as int));
                return Some(&self.charts[i]);
            }
            i = i + 1;
        }
        None
    }

    /// The names of all charts, in store order.
    pub fn names(&self) -> (r: Vec<String>)
        ensures
            r@.len() == self.charts@.len(),
            forall|i: int| 0 <= i < r@.len() ==> r@[i] == self.charts@[i].name,
    {
        let mut res: Vec<String> = Vec::new();
        let mut i: usize = 0;
        while i < self.charts.len()
            invariant
                i <= self.charts@.len(),
                res@.len() == i,
                forall|j: int| 0 <= j < i ==> res@[j] == self.charts@[j].name,
            decreases self.charts@.len() - i,
        {
            res.push(self.charts[i].name.clone());
            i = i + 1;
        }
        res
    }

    /// Records one collection cycle: chart `i` gets `samples[i]` appended
    /// where that is a sample; charts without one, and charts past the end
    /// of `samples`, are left as they were. No chart is added, removed or
    /// renamed.
    pub fn record_cycle(&mut self, samples: Vec<Option<P>>)
        ensures
            final(self).charts@.len() == old(self).charts@.len(),
            forall|i: int|
                0 <= i < old(self).charts@.len() ==> {
                    &&& #[trigger] final(self).charts@[i].points@ == after_cycle(
                        old(self).charts@[i].points@,
                        samples@,
                        i,
                    )
                    &&& same_settings(final(self).charts@[i], old(self).charts@[i])
                },
    {
        // The samples are taken from the back, so that each one can be moved
        // into its chart without copying.
        let mut samples = samples;
        let ghost all = samples@;
        let ghost start = self.charts@;
        let n: usize = self.charts.len();
        let mut k: usize = samples.len();
        while k > 0
            invariant
                k <= all.len(),
                samples@ == all.take(k as int),
                self.charts@.len() == n,
                n == start.len(),
                start == old(self).charts@,
                forall|i: int|
                    0 <= i < n ==> #[trigger] self.charts@[i].points@ == if i >= k {
                        after_cycle(start[i].points@, all, i)
                    } else {
                        start[i].points@
                    },
                forall|i: int| 0 <= i < n ==> same_settings(#[trigger] self.charts@[i], start[i]),
            decreases k,
        {
            let sample = samples.pop();
            k = k - 1;
            proof {
                assert(samples@ =~= all.take(k as int));
                assert(sample == Some(all[k as int]));
            }
            let ghost before = self.charts@;
            if k < n {
                assert(before[k as int].points@ == start[k as int].points@);
                if let Some(Some(p)) = sample {
                    self.charts[k].add_point(p);
                    assert(self.charts@ == before.update(k as int, self.charts@[k as int]));
                }
            }
        }
    }
}

/// A cycle whose run of the steps failed adds no sample to any chart.
pub proof fn lemma_failed_cycle_records_nothing<P>(
    points: Seq<P>,
    outcomes: Seq<Option<Outcome<P>>>,
    i: int,
)
    ensures
        after_cycle(points, cycle_samples_spec(false, outcomes), i) == points,
{
}

/// Recording a cycle never changes which charts exist, their order or
/// their names: the list of names is the same before and after.
pub proof fn lemma_record_keeps_names<P>(before: Seq<Chart<P>>, after: Seq<Chart<P>>)
    requires
        before.len() == after.len(),
        forall|i: int| 0 <= i < before.len() ==> same_settings(#[trigger] after[i], before[i]),
    ensures
        names_of(after) == names_of(before),
{
    assert(names_of(after) =~= names_of(before));
}

} // verus!
