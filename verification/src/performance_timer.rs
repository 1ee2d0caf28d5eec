use vstd::prelude::*;
use std::time::{Duration, Instant};

verus! {

#[verifier::external_type_specification]
#[verifier::external_body]
pub struct ExInstant(Instant);

/// Wraps `std::time::Instant::now`. Nothing is claimed of the instant it
/// returns: it depends on the machine's clock.
#[verifier::external_body]
fn instant_now() -> Instant {
    Instant::now()
}

/// Wraps `std::time::Instant::duration_since`. Nothing is claimed of the
/// duration, which depends on the two instants, that is on the machine's
/// clock; the std documentation says it is zero when `earlier` is later than
/// `later`.
#[verifier::external_body]
fn duration_between(later: &Instant, earlier: &Instant) -> Duration {
    later.duration_since(*earlier)
}

/// Wraps `std::time::Duration::as_nanos`: the whole number of nanoseconds in
/// `duration`. Nothing is claimed of it, since what a duration holds is not
/// visible here.
#[verifier::external_body]
fn nanos_of(duration: &Duration) -> u128 {
    duration.as_nanos()
}

/// Each category occurs at most once among the totals.
pub open spec fn distinct_categories(totals: Seq<(Seq<char>, u128)>) -> bool {
    forall|i: int, j: int| 0 <= i < j < totals.len() ==> #[trigger] totals[i].0 != #[trigger] totals[j].0
}

/// The totals after `nanos` more are counted for `category`: its entry grows
/// by that much (saturating), or a new entry is added at the end.
pub open spec fn totals_after(totals: Seq<(Seq<char>, u128)>, category: Seq<char>, nanos: u128) -> Seq<
    (Seq<char>, u128),
> {
    if exists|i: int| 0 <= i < totals.len() && #[trigger] totals[i].0 == category {
        let i = choose|i: int| 0 <= i < totals.len() && #[trigger] totals[i].0 == category;
        totals.update(i, (category, saturating_sum(totals[i].1, nanos)))
    } else {
        totals.push((category, nanos))
    }
}

/// `a + b`, or `u128::MAX` when that overflows.
pub open spec fn saturating_sum(a: u128, b: u128) -> u128 {
    if a + b > u128::MAX {
        u128::MAX
    } else {
        (a + b) as u128
    }
}

/// The totals held in `entries`, each category by its characters.
pub open spec fn totals_of(entries: Seq<(String, u128)>) -> Seq<(Seq<char>, u128)> {
    entries.map_values(|p: (String, u128)| (p.0@, p.1))
}

/// Accumulates, per named category, the time spent in it. The current
/// category runs from the last change until the next `set_category`.
pub struct PerformanceTimer {
    durations: Vec<(String, u128)>,
    last_change: Instant,
    current_category: String,
    real: bool,
}

impl PerformanceTimer {
    /// The totals so far, in nanoseconds, in the order the categories were
    /// first left.
    pub closed spec fn totals(&self) -> Seq<(Seq<char>, u128)> {
        totals_of(self.durations@)
    }

    /// When the timing of the current category started.
    pub closed spec fn timing_since(&self) -> Instant {
        self.last_change
    }

    pub closed spec fn category(&self) -> Seq<char> {
        self.current_category@
    }

    /// Whether the timer reports its totals when it goes away.
    pub closed spec fn reports(&self) -> bool {
        self.real
    }

    /// Each category has at most one total.
    #[verifier::type_invariant]
    spec fn inv(self) -> bool {
        distinct_categories(totals_of(self.durations@))
    }

    /// A timer in category "idle" with no totals, that reports when it goes
    /// away.
    pub fn new() -> (r: Self)
        ensures
            r.totals().len() == 0,
            r.category() == "idle"@,
            r.reports(),
    {
        Self {
            durations: Vec::new(),
            last_change: instant_now(),
            current_category: "idle".to_owned(),
            real: true,
        }
    }

    /// A timer like [`PerformanceTimer::new`] that does not report.
    pub fn new_fake() -> (r: Self)
        ensures
            r.totals().len() == 0,
            r.category() == "idle"@,
            !r.reports(),
    {
        Self {
            durations: Vec::new(),
            last_change: instant_now(),
            current_category: "idle".to_owned(),
            real: false,
        }
    }

    /// Counts the time since the last change for the current category, then
    /// switches to `category`.
    pub fn set_category(&mut self, category: &str)
        ensures
            exists|nanos: u128|
                final(self).totals() == #[trigger] totals_after(
                    old(self).totals(),
                    old(self).category(),
                    nanos,
                ),
            final(self).category() == category@,
            final(self).reports() == old(self).reports(),
    {
        let now = instant_now();
        let elapsed = nanos_of(&duration_between(&now, &self.last_change));
        self.add_to_current(elapsed);

        proof {
            use_type_invariant(&*self);
        }
        self.current_category = category.to_owned();
        self.last_change = instant_now();
    }

    /// Adds `nanos` to the total of the current category (see
    /// [`totals_after`]), leaving the category, the start of its timing and
    /// whether the timer reports as they were. This is the accounting that
    /// [`PerformanceTimer::set_category`] does with the time it measures.
    pub fn add_to_current(&mut self, nanos: u128)
        ensures
            final(self).totals() == totals_after(old(self).totals(), old(self).category(), nanos),
            final(self).category() == old(self).category(),
            final(self).reports() == old(self).reports(),
            final(self).timing_since() == old(self).timing_since(),
    {
        proof {
            use_type_invariant(&*self);
        }
        let mut durations: Vec<(String, u128)> = Vec::new();
        std::mem::swap(&mut durations, &mut self.durations);
        let ghost totals = totals_of(durations@);
        let ghost category = self.current_category@;
        let mut i: usize = 0;
        while i < durations.len() && !(durations[i].0 == self.current_category)
            invariant
                i <= durations.len(),
                totals_of(durations@) == totals,
                category == self.current_category@,
                distinct_categories(totals),
                forall|k: int| 0 <= k < i ==> #[trigger] totals[k].0 != category,
            decreases durations.len() - i,
        {
            i = i + 1;
        }
        if i < durations.len() {
            let key = durations[i].0.clone();
            let total = durations[i].1.saturating_add(nanos);
            durations.set(i, (key, total));
            proof {
                assert(totals[i as int].0 == category);
                let j = choose|j: int| 0 <= j < totals.len() && #[trigger] totals[j].0 == category;
                if j != i {
                    if j < i {
                        assert(false);
                    } else {
                        assert(totals[i as int].0 != totals[j].0);
                    }
                }
                assert(totals_of(durations@) =~= totals.update(
                    i as int,
                    (category, saturating_sum(totals[i as int].1, nanos)),
                ));
            }
        } else {
            let key = self.current_category.clone();
            durations.push((key, nanos));
            proof {
                assert(!exists|j: int| 0 <= j < totals.len() && #[trigger] totals[j].0 == category);
                assert(totals_of(durations@) =~= totals.push((category, nanos)));
            }
        }
        proof {
            assert forall|a: int, b: int|
                0 <= a < b < totals_of(durations@).len() implies #[trigger] totals_of(durations@)[a].0
                != #[trigger] totals_of(durations@)[b].0 by {
                if b == totals.len() {
                    assert(totals[a].0 != category);
                }
            }
        }
        self.durations = durations;
    }

    /// Forgets every total and starts over in category "idle".
    pub fn reset(&mut self)
        ensures
            final(self).totals().len() == 0,
            final(self).category() == "idle"@,
            final(self).reports() == old(self).reports(),
    {
        self.durations = Vec::new();
        self.last_change = instant_now();
        self.current_category = "idle".to_owned();
    }

    /// The totals so far: each category with its time in nanoseconds.
    pub fn durations(&self) -> (r: Vec<(String, u128)>)
        ensures
            totals_of(r@) == self.totals(),
    {
        let mut out: Vec<(String, u128)> = Vec::new();
        let mut i: usize = 0;
        while i < self.durations.len()
            invariant
                i <= self.durations.len(),
                totals_of(out@) =~= totals_of(self.durations@).take(i as int),
            decreases self.durations.len() - i,
        {
            let ghost before = out@;
            out.push((self.durations[i].0.clone(), self.durations[i].1));
            proof {
                assert(totals_of(out@) =~= totals_of(before).push(
                    (self.durations@[i as int].0@, self.durations@[i as int].1),
                ));
                assert(totals_of(self.durations@).take(i as int + 1) =~= totals_of(
                    self.durations@,
                ).take(i as int).push((self.durations@[i as int].0@, self.durations@[i as int].1)));
            }
            i = i + 1;
        }
        assert(totals_of(self.durations@).take(self.durations@.len() as int) =~= totals_of(
            self.durations@,
        ));
        out
    }

    /// The category being timed now.
    pub fn current_category(&self) -> (r: &str)
        ensures
            r@ == self.category(),
    {
        self.current_category.as_str()
    }

    /// Whether the timer reports its totals when it goes away.
    pub fn is_real(&self) -> (r: bool)
        ensures
            r == self.reports(),
    {
        self.real
    }
}

} // verus!
