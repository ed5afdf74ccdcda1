//! The trend analyzer: per-student trend classification from weekly
//! observation history, per-class aggregation over a fixed four-week
//! horizon, and the simulated progress tracker.
//!
//! Hours and attendance are in tenths; week confidences and progress
//! improvement scores are in thousandths; a student's trend improvement
//! score is in hundredths of its zero-to-ten scale.

use vstd::prelude::*;

use crate::model::{avg_of, clamped, rate_of, scored, TrainedModel};
use crate::rng::draw_in_range;

verus! {

/// A closed trend classification, never a free-form string.
#[derive(Clone, Copy, Debug, PartialEq, Eq, Structural)]
pub enum Trend {
    Improving,
    Declining,
    Stable,
}

/// The performance tier of a student's latest observation.
#[derive(Clone, Copy, Debug, PartialEq, Eq, Structural)]
pub enum Performance {
    Excellent,
    Good,
    Average,
    NeedsImprovement,
    /// No observations at all.
    Unknown,
}

/// The advice row selected by the performance tier.
#[derive(Clone, Copy, Debug, PartialEq, Eq, Structural)]
pub enum TrendRecommendation {
    MaintainCurrentHabits,
    IncreaseHoursSlightly,
    FocusOnConsistency,
    NeedsSignificantWork,
    GatherMoreData,
}

pub open spec fn min_of(a: int, b: int) -> int {
    if a <= b {
        a
    } else {
        b
    }
}

/// Chart confidence for one observation: `min(1, hours/10 + attendance/100)`
/// in real units, exactly `min(1000, 10 * hours + attendance)` over tenths.
pub open spec fn week_confidence(hours: int, attendance: int) -> int {
    min_of(1000, 10 * hours + attendance)
}

/// Whether one weekly observation predicts a pass: at least 5 hours and 75%.
pub open spec fn week_predicted_pass(hours: int, attendance: int) -> bool {
    hours >= 50 && attendance >= 750
}

/// The trend between the first and last observations: improving only when
/// hours rose by more than 1 and attendance by more than 5; declining when
/// either fell by more than that.
pub open spec fn trend_of(first: (i64, i64), last: (i64, i64)) -> Trend {
    let hours_change = last.0 - first.0;
    let attendance_change = last.1 - first.1;
    if hours_change > 10 && attendance_change > 50 {
        Trend::Improving
    } else if hours_change < -10 || attendance_change < -50 {
        Trend::Declining
    } else {
        Trend::Stable
    }
}

/// Improvement between first and last observation:
/// `0.6 * hours_delta + 0.4 * attendance_delta` clamped to [0, 10], held in
/// hundredths of a point (so 0 to 1000).
pub open spec fn improvement_of(first: (i64, i64), last: (i64, i64)) -> int {
    clamped(0, 1000, 6 * (last.0 - first.0) + 4 * (last.1 - first.1))
}

/// The tier of the latest observation.
pub open spec fn performance_of(hours: int, attendance: int) -> Performance {
    if hours >= 80 && attendance >= 850 {
        Performance::Excellent
    } else if hours >= 60 && attendance >= 750 {
        Performance::Good
    } else if hours >= 40 && attendance >= 650 {
        Performance::Average
    } else {
        Performance::NeedsImprovement
    }
}

pub open spec fn trend_recommendation_of(p: Performance) -> TrendRecommendation {
    match p {
        Performance::Excellent => TrendRecommendation::MaintainCurrentHabits,
        Performance::Good => TrendRecommendation::IncreaseHoursSlightly,
        Performance::Average => TrendRecommendation::FocusOnConsistency,
        Performance::NeedsImprovement => TrendRecommendation::NeedsSignificantWork,
        Performance::Unknown => TrendRecommendation::GatherMoreData,
    }
}

/// One chart-ready entry derived from a weekly observation.
#[derive(Clone, Copy, Debug, PartialEq, Eq, Structural)]
pub struct WeekData {
    pub week: usize,
    pub predicted_pass: bool,
    /// In thousandths, capped at 1000.
    pub confidence: i64,
}

pub struct StudentTrend {
    pub student_name: String,
    pub trend: Trend,
    pub current_performance: Performance,
    pub recommendation: TrendRecommendation,
    /// In hundredths of its zero-to-ten scale, within [0, 1000]; zero with
    /// fewer than two observations.
    pub improvement_score: i64,
    pub weekly: Vec<WeekData>,
}

/// One student's observation history, ordered by week; each entry is
/// (hours, attendance) in tenths.
pub struct StudentHistory {
    pub name: String,
    pub weeks: Vec<(i64, i64)>,
}

pub open spec fn observations_bounded(s: Seq<(i64, i64)>) -> bool {
    forall|i: int|
        0 <= i < s.len() ==> -1_000_000_000 <= (#[trigger] s[i]).0 <= 1_000_000_000
            && -1_000_000_000 <= s[i].1 <= 1_000_000_000
}

pub struct TrendsAnalyzer;

impl TrendsAnalyzer {
    pub fn new() -> (r: Self) {
        TrendsAnalyzer
    }

    /// Classifies one student's history: a week-by-week chart series, the
    /// first-versus-last trend, the latest performance tier and its advice.
    /// Fewer than two observations always give a stable trend and a zero
    /// improvement score.
    pub fn generate_student_trend(&self, student_name: &str, historical_data: Vec<(i64, i64)>) -> (r:
        StudentTrend)
        requires
            observations_bounded(historical_data@),
            historical_data@.len() <= 100_000_000,
        ensures
            r.student_name@ == student_name@,
            r.weekly@.len() == historical_data@.len(),
            forall|i: int|
                0 <= i < historical_data@.len() ==> {
                    let w = #[trigger] r.weekly@[i];
                    w.week == i + 1 && w.predicted_pass == week_predicted_pass(
                        historical_data@[i].0 as int,
                        historical_data@[i].1 as int,
                    ) && w.confidence == week_confidence(
                        historical_data@[i].0 as int,
                        historical_data@[i].1 as int,
                    )
                },
            historical_data@.len() < 2 ==> r.trend == Trend::Stable && r.improvement_score == 0,
            historical_data@.len() >= 2 ==> r.trend == trend_of(
                historical_data@.first(),
                historical_data@.last(),
            ) && r.improvement_score == improvement_of(
                historical_data@.first(),
                historical_data@.last(),
            ),
            historical_data@.len() == 0 ==> r.current_performance == Performance::Unknown,
            historical_data@.len() >= 1 ==> r.current_performance == performance_of(
                historical_data@.last().0 as int,
                historical_data@.last().1 as int,
            ),
            r.recommendation == trend_recommendation_of(r.current_performance),
            0 <= r.improvement_score <= 1000,
    {
        let n = historical_data.len();
        let mut weekly: Vec<WeekData> = Vec::new();
        let mut i: usize = 0;
        while i < n
            invariant
                n == historical_data@.len() <= 100_000_000,
                observations_bounded(historical_data@),
                i <= n,
                weekly@.len() == i,
                forall|j: int|
                    0 <= j < i ==> {
                        let w = #[trigger] weekly@[j];
                        w.week == j + 1 && w.predicted_pass == week_predicted_pass(
                            historical_data@[j].0 as int,
                            historical_data@[j].1 as int,
                        ) && w.confidence == week_confidence(
                            historical_data@[j].0 as int,
                            historical_data@[j].1 as int,
                        )
                    },
            decreases n - i,
        {
            let (hours, attendance) = historical_data[i];
            let raw: i64 = 10 * hours + attendance;
            let confidence: i64 = if raw > 1000 {
                1000
            } else {
                raw
            };
            weekly.push(
                WeekData {
                    week: i + 1,
                    predicted_pass: hours >= 50 && attendance >= 750,
                    confidence,
                },
            );
            i = i + 1;
        }

        let (trend, improvement_score): (Trend, i64) = if n >= 2 {
            let (first_hours, first_attendance) = historical_data[0];
            let (last_hours, last_attendance) = historical_data[n - 1];
            let hours_change = last_hours - first_hours;
            let attendance_change = last_attendance - first_attendance;
            let t = if hours_change > 10 && attendance_change > 50 {
                Trend::Improving
            } else if hours_change < -10 || attendance_change < -50 {
                Trend::Declining
            } else {
                Trend::Stable
            };
            let raw_score: i64 = 6 * hours_change + 4 * attendance_change;
            let score = if raw_score < 0 {
                0
            } else if raw_score > 1000 {
                1000
            } else {
                raw_score
            };
            (t, score)
        } else {
            (Trend::Stable, 0)
        };

        let current_performance = if n == 0 {
            Performance::Unknown
        } else {
            let (last_hours, last_attendance) = historical_data[n - 1];
            if last_hours >= 80 && last_attendance >= 850 {
                Performance::Excellent
            } else if last_hours >= 60 && last_attendance >= 750 {
                Performance::Good
            } else if last_hours >= 40 && last_attendance >= 650 {
                Performance::Average
            } else {
                Performance::NeedsImprovement
            }
        };

        let recommendation = match current_performance {
            Performance::Excellent => TrendRecommendation::MaintainCurrentHabits,
            Performance::Good => TrendRecommendation::IncreaseHoursSlightly,
            Performance::Average => TrendRecommendation::FocusOnConsistency,
            Performance::NeedsImprovement => TrendRecommendation::NeedsSignificantWork,
            Performance::Unknown => TrendRecommendation::GatherMoreData,
        };

        StudentTrend {
            student_name: student_name.to_owned(),
            trend,
            current_performance,
            recommendation,
            improvement_score,
            weekly,
        }
    }
}

/// Class-level chart data over the fixed four-week horizon, with the ranked
/// extremes of the class.
pub struct ClassTrends {
    /// Always the weeks 1 through 4.
    pub weeks: Vec<usize>,
    /// Truncated average hours per week, in tenths; zero for a week nobody
    /// observed.
    pub avg_study_hours: Vec<i64>,
    /// Truncated average attendance per week, in tenths of a percent.
    pub avg_attendance: Vec<i64>,
    /// Share of contributing students predicted to pass, in thousandths.
    pub pass_rates: Vec<i64>,
    /// Names of the up-to-three students with the highest cumulative score.
    pub top_performers: Vec<String>,
    /// Names of the up-to-three students with the lowest cumulative score;
    /// with fewer than six students the two lists may overlap.
    pub at_risk: Vec<String>,
    /// Mean of the hours and attendance deltas between the first and last
    /// weeks anyone observed, in thousandths.
    pub average_improvement: i64,
}

/// How many students have an observation for the (zero-based) week `w`.
pub open spec fn count_at(s: Seq<StudentHistory>, w: int) -> int
    decreases s.len(),
{
    if s.len() == 0 {
        0
    } else {
        count_at(s.drop_last(), w) + if w < s.last().weeks@.len() {
            1int
        } else {
            0int
        }
    }
}

/// Total hours observed for week `w` across the class, in tenths.
pub open spec fn hours_at(s: Seq<StudentHistory>, w: int) -> int
    decreases s.len(),
{
    if s.len() == 0 {
        0
    } else {
        hours_at(s.drop_last(), w) + if w < s.last().weeks@.len() {
            s.last().weeks@[w].0 as int
        } else {
            0int
        }
    }
}

/// Total attendance observed for week `w` across the class, in tenths.
pub open spec fn attendance_at(s: Seq<StudentHistory>, w: int) -> int
    decreases s.len(),
{
    if s.len() == 0 {
        0
    } else {
        attendance_at(s.drop_last(), w) + if w < s.last().weeks@.len() {
            s.last().weeks@[w].1 as int
        } else {
            0int
        }
    }
}

/// How many of week `w`'s observations predict a pass.
pub open spec fn passes_at(s: Seq<StudentHistory>, w: int) -> int
    decreases s.len(),
{
    if s.len() == 0 {
        0
    } else {
        passes_at(s.drop_last(), w) + if w < s.last().weeks@.len() && week_predicted_pass(
            s.last().weeks@[w].0 as int,
            s.last().weeks@[w].1 as int,
        ) {
            1int
        } else {
            0int
        }
    }
}

pub open spec fn avg_hours_at(s: Seq<StudentHistory>, w: int) -> int {
    if count_at(s, w) > 0 {
        hours_at(s, w) / count_at(s, w)
    } else {
        0
    }
}

pub open spec fn avg_attendance_at(s: Seq<StudentHistory>, w: int) -> int {
    if count_at(s, w) > 0 {
        attendance_at(s, w) / count_at(s, w)
    } else {
        0
    }
}

pub open spec fn pass_rate_at(s: Seq<StudentHistory>, w: int) -> int {
    if count_at(s, w) > 0 {
        passes_at(s, w) * 1000 / count_at(s, w)
    } else {
        0
    }
}

/// A student's cumulative weighted score across the observed weeks: the sum
/// of `hours * 0.5 + attendance * 0.5` per week, held doubled (so exact) in
/// tenths: the plain sum of hours and attendance.
pub open spec fn cum_score(weeks: Seq<(i64, i64)>) -> int
    decreases weeks.len(),
{
    if weeks.len() == 0 {
        0
    } else {
        cum_score(weeks.drop_last()) + weeks.last().0 + weeks.last().1
    }
}

/// The zero-based first week of the horizon anyone observed, or -1.
pub open spec fn first_active_week(s: Seq<StudentHistory>) -> int {
    if count_at(s, 0) > 0 {
        0
    } else if count_at(s, 1) > 0 {
        1
    } else if count_at(s, 2) > 0 {
        2
    } else if count_at(s, 3) > 0 {
        3
    } else {
        -1
    }
}

/// The zero-based last week of the horizon anyone observed, or -1.
pub open spec fn last_active_week(s: Seq<StudentHistory>) -> int {
    if count_at(s, 3) > 0 {
        3
    } else if count_at(s, 2) > 0 {
        2
    } else if count_at(s, 1) > 0 {
        1
    } else if count_at(s, 0) > 0 {
        0
    } else {
        -1
    }
}

/// Mean of the two aggregate deltas between the first and last active weeks,
/// in thousandths; zero when fewer than two distinct weeks were observed.
pub open spec fn average_improvement_of(s: Seq<StudentHistory>) -> int {
    let f = first_active_week(s);
    let l = last_active_week(s);
    if f < 0 || l <= f {
        0
    } else {
        50 * ((avg_hours_at(s, l) - avg_hours_at(s, f)) + (avg_attendance_at(s, l)
            - avg_attendance_at(s, f)))
    }
}

/// Hours and attendance of every observation within the stated class-wide
/// bounds, and nonnegative as the data model asks.
pub open spec fn class_data_ok(s: Seq<StudentHistory>) -> bool {
    &&& s.len() <= 1_000_000
    &&& forall|i: int|
        0 <= i < s.len() ==> (#[trigger] s[i]).weeks@.len() <= 10_000 && forall|j: int|
            0 <= j < s[i].weeks@.len() ==> 0 <= (#[trigger] s[i].weeks@[j]).0 <= 1_000_000_000 && 0
                <= s[i].weeks@[j].1 <= 1_000_000_000
}

/// A valid descending ranking of the class: a permutation of every student's
/// (cumulative score, index) pair, ordered by score.
pub open spec fn class_ranking_ok(s: Seq<StudentHistory>, ranking: Seq<(i64, usize)>) -> bool {
    &&& ranking.len() == s.len()
    &&& ranking.to_multiset() == Seq::new(
        s.len(),
        |i: int| (cum_score(s[i].weeks@) as i64, i as usize),
    ).to_multiset()
    &&& forall|i: int, j: int| 0 <= i < j < ranking.len() ==> ranking[i].0 >= ranking[j].0
}

/// Sorts (score, index) pairs by descending score, returning a permutation.
fn sort_pairs_desc(pairs: Vec<(i64, usize)>) -> (r: Vec<(i64, usize)>)
    ensures
        r@.len() == pairs@.len(),
        r@.to_multiset() == pairs@.to_multiset(),
        forall|i: int, j: int| 0 <= i < j < r@.len() ==> r@[i].0 >= r@[j].0,
{
    broadcast use vstd::seq_lib::group_to_multiset_ensures;

    let mut rest = pairs;
    let mut sorted: Vec<(i64, usize)> = Vec::new();
    while rest.len() > 0
        invariant
            sorted@.len() + rest@.len() == pairs@.len(),
            sorted@.to_multiset().add(rest@.to_multiset()) == pairs@.to_multiset(),
            forall|i: int, j: int| 0 <= i < j < sorted@.len() ==> sorted@[i].0 >= sorted@[j].0,
            forall|k: int, j: int|
                0 <= k < sorted@.len() && 0 <= j < rest@.len() ==> (#[trigger] sorted@[k]).0 >= (
                #[trigger] rest@[j]).0,
        decreases rest@.len(),
    {
        let mut m: usize = 0;
        let mut t: usize = 1;
        while t < rest.len()
            invariant
                rest@.len() > 0,
                m < rest@.len(),
                t <= rest@.len(),
                forall|j: int| 0 <= j < t ==> rest@[m as int].0 >= (#[trigger] rest@[j]).0,
            decreases rest@.len() - t,
        {
            if rest[t].0 > rest[m].0 {
                m = t;
            }
            t = t + 1;
        }
        let ghost old_rest = rest@;
        let ghost old_sorted = sorted@;
        let x = rest.remove(m);
        sorted.push(x);
        proof {
            broadcast use vstd::multiset::group_multiset_axioms;

            old_rest.to_multiset_ensures();
            old_sorted.to_multiset_ensures();
            assert(old_rest[m as int] == x);
            assert(old_rest.contains(x));
            assert(old_rest.to_multiset().count(x) >= 1);
            assert(sorted@ == old_sorted.push(x));
            assert(old_sorted.push(x).to_multiset() =~= old_sorted.to_multiset().insert(x));
            assert(old_rest.remove(m as int).to_multiset() =~= old_rest.to_multiset().remove(x));
            assert(rest@.to_multiset() =~= old_rest.to_multiset().remove(x));
            assert(sorted@.to_multiset().add(rest@.to_multiset()) =~= pairs@.to_multiset());
            assert forall|j: int| 0 <= j < rest@.len() implies x.0 >= (#[trigger] rest@[j]).0 by {
                if j < m {
                    assert(rest@[j] == old_rest[j]);
                } else {
                    assert(rest@[j] == old_rest[j + 1]);
                }
            }
        }
    }
    sorted
}

impl TrendsAnalyzer {
    /// Aggregates the class over the fixed four-week horizon (students with
    /// shorter histories contribute to fewer weeks), ranks every student by
    /// cumulative weighted score, and lists the up-to-three highest and
    /// lowest ranked names.
    pub fn generate_class_trends(&self, student_data: Vec<StudentHistory>) -> (r: ClassTrends)
        requires
            class_data_ok(student_data@),
        ensures
            r.weeks@ == seq![1usize, 2usize, 3usize, 4usize],
            r.avg_study_hours@.len() == 4,
            r.avg_attendance@.len() == 4,
            r.pass_rates@.len() == 4,
            forall|w: int|
                0 <= w < 4 ==> #[trigger] r.avg_study_hours@[w] == avg_hours_at(student_data@, w),
            forall|w: int|
                0 <= w < 4 ==> #[trigger] r.avg_attendance@[w] == avg_attendance_at(
                    student_data@,
                    w,
                ),
            forall|w: int| 0 <= w < 4 ==> #[trigger] r.pass_rates@[w] == pass_rate_at(student_data@, w),
            r.top_performers@.len() == min_of(3, student_data@.len() as int),
            r.at_risk@.len() == min_of(3, student_data@.len() as int),
            exists|ranking: Seq<(i64, usize)>|
                {
                    &&& #[trigger] class_ranking_ok(student_data@, ranking)
                    &&& forall|t: int|
                        0 <= t < min_of(3, student_data@.len() as int) ==> (
                        #[trigger] r.top_performers@[t])@ == student_data@[ranking[t].1 as int].name@
                    &&& forall|t: int|
                        0 <= t < min_of(3, student_data@.len() as int) ==> (#[trigger] r.at_risk@[
                            t
                        ])@ == student_data@[ranking[student_data@.len() - min_of(
                            3,
                            student_data@.len() as int,
                        ) + t].1 as int].name@
                },
            r.average_improvement == average_improvement_of(student_data@),
    {
        let n = student_data.len();

        let mut counts: Vec<i64> = Vec::new();
        let mut avg_study_hours: Vec<i64> = Vec::new();
        let mut avg_attendance: Vec<i64> = Vec::new();
        let mut pass_rates: Vec<i64> = Vec::new();
        let mut w: usize = 0;
        while w < 4
            invariant
                class_data_ok(student_data@),
                n == student_data@.len(),
                w <= 4,
                counts@.len() == w,
                avg_study_hours@.len() == w,
                avg_attendance@.len() == w,
                pass_rates@.len() == w,
                forall|v: int| 0 <= v < w ==> #[trigger] counts@[v] == count_at(student_data@, v),
                forall|v: int|
                    0 <= v < w ==> #[trigger] avg_study_hours@[v] == avg_hours_at(student_data@, v),
                forall|v: int|
                    0 <= v < w ==> #[trigger] avg_attendance@[v] == avg_attendance_at(
                        student_data@,
                        v,
                    ),
                forall|v: int|
                    0 <= v < w ==> #[trigger] pass_rates@[v] == pass_rate_at(student_data@, v),
                forall|v: int|
                    0 <= v < w ==> 0 <= #[trigger] avg_study_hours@[v] <= 1_000_000_000,
                forall|v: int| 0 <= v < w ==> 0 <= #[trigger] avg_attendance@[v] <= 1_000_000_000,
            decreases 4 - w,
        {
            let mut cnt: i64 = 0;
            let mut sum_hours: i64 = 0;
            let mut sum_attendance: i64 = 0;
            let mut passes: i64 = 0;
            let mut i: usize = 0;
            while i < n
                invariant
                    class_data_ok(student_data@),
                    n == student_data@.len(),
                    i <= n,
                    w < 4,
                    cnt == count_at(student_data@.take(i as int), w as int),
                    sum_hours == hours_at(student_data@.take(i as int), w as int),
                    sum_attendance == attendance_at(student_data@.take(i as int), w as int),
                    passes == passes_at(student_data@.take(i as int), w as int),
                    0 <= cnt <= i,
                    0 <= passes <= cnt,
                    0 <= sum_hours <= cnt * 1_000_000_000,
                    0 <= sum_attendance <= cnt * 1_000_000_000,
                decreases n - i,
            {
                let ghost prev = student_data@.take(i as int);
                let weeks_len = student_data[i].weeks.len();
                if w < weeks_len {
                    let (h, a) = student_data[i].weeks[w];
                    cnt = cnt + 1;
                    sum_hours = sum_hours + h;
                    sum_attendance = sum_attendance + a;
                    if h >= 50 && a >= 750 {
                        passes = passes + 1;
                    }
                }
                proof {
                    assert(student_data@.take(i + 1).drop_last() =~= prev);
                    assert(student_data@.take(i + 1).last() == student_data@[i as int]);
                }
                i = i + 1;
            }
            proof {
                assert(student_data@.take(n as int) =~= student_data@);
            }
            counts.push(cnt);
            avg_study_hours.push(avg_of(sum_hours, cnt));
            avg_attendance.push(avg_of(sum_attendance, cnt));
            pass_rates.push(rate_of(passes, cnt));
            w = w + 1;
        }

        let mut weeks: Vec<usize> = Vec::new();
        weeks.push(1);
        weeks.push(2);
        weeks.push(3);
        weeks.push(4);
        proof {
            assert(weeks@ =~= seq![1usize, 2usize, 3usize, 4usize]);
        }

        // Every student's cumulative weighted score, paired with their index.
        let mut scores: Vec<(i64, usize)> = Vec::new();
        let mut i: usize = 0;
        while i < n
            invariant
                class_data_ok(student_data@),
                n == student_data@.len(),
                i <= n,
                scores@.len() == i,
                forall|j: int|
                    0 <= j < i ==> #[trigger] scores@[j] == (
                        cum_score(student_data@[j].weeks@) as i64,
                        j as usize,
                    ),
            decreases n - i,
        {
            let weeks_len = student_data[i].weeks.len();
            let mut total: i64 = 0;
            let mut j: usize = 0;
            while j < weeks_len
                invariant
                    class_data_ok(student_data@),
                    n == student_data@.len(),
                    i < n,
                    weeks_len == student_data@[i as int].weeks@.len(),
                    j <= weeks_len,
                    total == cum_score(student_data@[i as int].weeks@.take(j as int)),
                    0 <= total <= j * 2_000_000_000,
                decreases weeks_len - j,
            {
                let ghost prev = student_data@[i as int].weeks@.take(j as int);
                let (h, a) = student_data[i].weeks[j];
                total = total + h + a;
                proof {
                    assert(student_data@[i as int].weeks@.take(j + 1).drop_last() =~= prev);
                }
                j = j + 1;
            }
            proof {
                assert(student_data@[i as int].weeks@.take(weeks_len as int) =~= student_data@[
                    i as int
                ].weeks@);
            }
            scores.push((total, i));
            i = i + 1;
        }
        proof {
            assert(scores@ =~= Seq::new(
                student_data@.len(),
                |i: int| (cum_score(student_data@[i].weeks@) as i64, i as usize),
            ));
        }

        let ranking = sort_pairs_desc(scores);
        let ghost ranking_view = ranking@;

        let take = if n < 3 {
            n
        } else {
            3
        };
        proof {
            broadcast use vstd::seq_lib::group_to_multiset_ensures;

        }
        let mut top_performers: Vec<String> = Vec::new();
        let mut t: usize = 0;
        while t < take
            invariant
                class_data_ok(student_data@),
                n == student_data@.len(),
                class_ranking_ok(student_data@, ranking@),
                ranking@ == ranking_view,
                take == min_of(3, n as int),
                t <= take,
                top_performers@.len() == t,
                forall|u: int|
                    0 <= u < t ==> (#[trigger] top_performers@[u])@ == student_data@[ranking@[u].1
                        as int].name@,
            decreases take - t,
        {
            proof {
                lemma_ranking_entry(student_data@, ranking@, t as int);
            }
            let idx = ranking[t].1;
            top_performers.push(student_data[idx].name.clone());
            t = t + 1;
        }

        let mut at_risk: Vec<String> = Vec::new();
        let mut t: usize = 0;
        while t < take
            invariant
                class_data_ok(student_data@),
                n == student_data@.len(),
                class_ranking_ok(student_data@, ranking@),
                ranking@ == ranking_view,
                take == min_of(3, n as int),
                t <= take,
                at_risk@.len() == t,
                forall|u: int|
                    0 <= u < t ==> (#[trigger] at_risk@[u])@ == student_data@[ranking@[n - take
                        + u].1 as int].name@,
            decreases take - t,
        {
            proof {
                lemma_ranking_entry(student_data@, ranking@, n - take + t as int);
            }
            let idx = ranking[n - take + t].1;
            at_risk.push(student_data[idx].name.clone());
            t = t + 1;
        }

        // Mean improvement between the first and last weeks anyone observed.
        let mut first_active: i64 = -1;
        let mut last_active: i64 = -1;
        let mut w: usize = 0;
        while w < 4
            invariant
                counts@.len() == 4,
                forall|v: int| 0 <= v < 4 ==> #[trigger] counts@[v] == count_at(student_data@, v),
                w <= 4,
                -1 <= first_active < w,
                -1 <= last_active < w,
                first_active == spec_first_active_prefix(student_data@, w as int),
                last_active == spec_last_active_prefix(student_data@, w as int),
            decreases 4 - w,
        {
            if counts[w] > 0 {
                if first_active < 0 {
                    first_active = w as i64;
                }
                last_active = w as i64;
            }
            w = w + 1;
        }
        proof {
            lemma_active_prefix_full(student_data@);
        }
        let average_improvement: i64 = if first_active >= 0 && last_active > first_active {
            let f = first_active as usize;
            let l = last_active as usize;
            50 * ((avg_study_hours[l] - avg_study_hours[f]) + (avg_attendance[l]
                - avg_attendance[f]))
        } else {
            0
        };

        ClassTrends {
            weeks,
            avg_study_hours,
            avg_attendance,
            pass_rates,
            top_performers,
            at_risk,
            average_improvement,
        }
    }
}

/// The first active week among the zero-based weeks below `w`, or -1.
pub open spec fn spec_first_active_prefix(s: Seq<StudentHistory>, w: int) -> int
    decreases w,
{
    if w <= 0 {
        -1
    } else {
        let before = spec_first_active_prefix(s, w - 1);
        if before >= 0 {
            before
        } else if count_at(s, w - 1) > 0 {
            w - 1
        } else {
            -1
        }
    }
}

/// The last active week among the zero-based weeks below `w`, or -1.
pub open spec fn spec_last_active_prefix(s: Seq<StudentHistory>, w: int) -> int
    decreases w,
{
    if w <= 0 {
        -1
    } else if count_at(s, w - 1) > 0 {
        w - 1
    } else {
        spec_last_active_prefix(s, w - 1)
    }
}

proof fn lemma_active_prefix_full(s: Seq<StudentHistory>)
    ensures
        spec_first_active_prefix(s, 4) == first_active_week(s),
        spec_last_active_prefix(s, 4) == last_active_week(s),
{
    reveal_with_fuel(spec_first_active_prefix, 5);
    reveal_with_fuel(spec_last_active_prefix, 5);
}

/// Under the class-wide bounds a cumulative score stays small.
proof fn lemma_cum_score_bounded(weeks: Seq<(i64, i64)>)
    requires
        forall|j: int|
            0 <= j < weeks.len() ==> 0 <= (#[trigger] weeks[j]).0 <= 1_000_000_000 && 0
                <= weeks[j].1 <= 1_000_000_000,
    ensures
        0 <= cum_score(weeks) <= weeks.len() * 2_000_000_000,
    decreases weeks.len(),
{
    if weeks.len() > 0 {
        lemma_cum_score_bounded(weeks.drop_last());
    }
}

/// Any entry of a valid ranking points at a real student and carries that
/// student's cumulative score.
proof fn lemma_ranking_entry(s: Seq<StudentHistory>, ranking: Seq<(i64, usize)>, t: int)
    requires
        class_data_ok(s),
        class_ranking_ok(s, ranking),
        0 <= t < ranking.len(),
    ensures
        ranking[t].1 < s.len(),
        ranking[t].0 == cum_score(s[ranking[t].1 as int].weeks@),
{
    broadcast use vstd::seq_lib::group_to_multiset_ensures;

    let expected = Seq::new(s.len(), |i: int| (cum_score(s[i].weeks@) as i64, i as usize));
    assert(ranking.to_multiset().count(ranking[t]) > 0) by {
        assert(ranking.contains(ranking[t]));
    }
    assert(expected.to_multiset().count(ranking[t]) > 0);
    assert(expected.contains(ranking[t]));
    let j = choose|j: int| 0 <= j < expected.len() && expected[j] == ranking[t];
    assert(ranking[t].1 == j as usize);
    lemma_cum_score_bounded(s[j].weeks@);
}

/// One simulated week of a progress report.
pub struct WeekProgress {
    pub week: usize,
    /// In tenths, never negative.
    pub study_hours: i64,
    /// In tenths of a percent, within [0, 1000].
    pub attendance: i64,
    pub passed: bool,
    /// In hundredths, within [50, 100].
    pub confidence: i64,
    /// `0.6 * hours + 0.4 * attendance` over real units, held in
    /// thousandths: `6 * hours + 4 * attendance` over tenths.
    pub improvement_score: i64,
}

pub struct ProgressReport {
    pub student_name: String,
    pub tracking_weeks: usize,
    pub progress: Vec<WeekProgress>,
    /// None with fewer than two tracked weeks.
    pub overall_trend: Option<Trend>,
}

/// What one simulated week of a progress report satisfies: the metrics sit
/// on the gradually improving baseline up to a bounded jitter draw (with
/// attendance clamped to its range), the improvement formula is exact, and
/// the pass call is the scorer's result for some admissible noise draw.
pub open spec fn week_progress_ok(i: int, p: WeekProgress) -> bool {
    &&& p.week == i + 1
    &&& 30 + 5 * (i + 1) <= p.study_hours < 50 + 5 * (i + 1)
    &&& clamped(0, 1000, 650 + 20 * (i + 1)) <= p.attendance <= clamped(0, 1000, 749 + 20 * (i + 1))
    &&& 0 <= p.study_hours
    &&& 0 <= p.attendance <= 1000
    &&& p.improvement_score == 6 * p.study_hours + 4 * p.attendance
    &&& exists|noise: int|
        -10 <= noise <= 10 && (p.passed, p.confidence as int) == scored(
            p.study_hours as int,
            p.attendance as int,
            noise,
        )
    &&& 50 <= p.confidence <= 100
}

/// The trend between the first and last improvement scores (thousandths):
/// a change of more than one full point either way.
pub open spec fn progress_trend_of(first: int, last: int) -> Trend {
    if last > first + 1000 {
        Trend::Improving
    } else if last < first - 1000 {
        Trend::Declining
    } else {
        Trend::Stable
    }
}

/// Classifies a series of improvement scores (thousandths); fewer than two
/// scores are not enough to call a trend.
pub fn analyze_progress_trend(scores: &Vec<i64>) -> (r: Option<Trend>)
    requires
        forall|i: int|
            0 <= i < scores@.len() ==> -1_000_000_000_000 <= #[trigger] scores@[i]
                <= 1_000_000_000_000,
    ensures
        scores@.len() < 2 ==> r is None,
        scores@.len() >= 2 ==> r == Some(
            progress_trend_of(scores@.first() as int, scores@.last() as int),
        ),
{
    if scores.len() < 2 {
        return None;
    }
    let first = scores[0];
    let last = scores[scores.len() - 1];
    if last > first + 1000 {
        Some(Trend::Improving)
    } else if last < first - 1000 {
        Some(Trend::Declining)
    } else {
        Some(Trend::Stable)
    }
}

/// Simulates a progress report over the given number of weeks: each week
/// draws metrics around a gradually improving baseline, scores them with the
/// model, and the improvement series is classified as a whole.
pub fn track_student_progress(model: &TrainedModel, student_name: &str, weeks: usize) -> (r:
    ProgressReport)
    requires
        weeks <= 100_000,
    ensures
        r.student_name@ == student_name@,
        r.tracking_weeks == weeks,
        r.progress@.len() == weeks,
        forall|i: int| 0 <= i < weeks ==> week_progress_ok(i, #[trigger] r.progress@[i]),
        weeks < 2 ==> r.overall_trend is None,
        weeks >= 2 ==> r.overall_trend == Some(
            progress_trend_of(
                r.progress@.first().improvement_score as int,
                r.progress@.last().improvement_score as int,
            ),
        ),
{
    let mut progress: Vec<WeekProgress> = Vec::new();
    let mut scores: Vec<i64> = Vec::new();
    let mut week: usize = 1;
    while week <= weeks
        invariant
            weeks <= 100_000,
            1 <= week <= weeks + 1,
            progress@.len() == week - 1,
            scores@.len() == week - 1,
            forall|i: int|
                0 <= i < week - 1 ==> week_progress_ok(i, #[trigger] progress@[i]),
            forall|i: int|
                0 <= i < week - 1 ==> #[trigger] scores@[i] == progress@[i].improvement_score,
            forall|i: int| 0 <= i < week - 1 ==> 0 <= #[trigger] scores@[i] <= 10_000_000,
        decreases weeks + 1 - week,
    {
        // A gradually improving baseline with bounded jitter.
        let base_hours: i64 = 40 + 5 * (week as i64);
        let base_attendance: i64 = 700 + 20 * (week as i64);
        let jitter_hours = draw_in_range(-10, 10);
        let jitter_attendance = draw_in_range(-50, 50);
        let raw_hours = base_hours + jitter_hours;
        let study_hours: i64 = if raw_hours < 0 {
            0
        } else {
            raw_hours
        };
        let raw_attendance = base_attendance + jitter_attendance;
        let attendance: i64 = if raw_attendance < 0 {
            0
        } else if raw_attendance > 1000 {
            1000
        } else {
            raw_attendance
        };

        let (passed, confidence) = model.predict(study_hours, attendance);
        let improvement_score: i64 = 6 * study_hours + 4 * attendance;

        let ghost picked = choose|noise: int|
            -10 <= noise <= 10 && (passed, confidence as int) == scored(
                study_hours as int,
                attendance as int,
                noise,
            );
        progress.push(
            WeekProgress { week, study_hours, attendance, passed, confidence, improvement_score },
        );
        scores.push(improvement_score);
        proof {
            let p = progress@.last();
            assert((p.passed, p.confidence as int) == scored(
                p.study_hours as int,
                p.attendance as int,
                picked,
            ));
            assert(p.study_hours == 40 + 5 * (week as int) + jitter_hours);
            assert(p.attendance == clamped(0, 1000, 700 + 20 * (week as int) + jitter_attendance));
            assert(week_progress_ok(week - 1, p));
        }
        week = week + 1;
    }

    let overall_trend = analyze_progress_trend(&scores);
    proof {
        if weeks >= 2 {
            assert(scores@.first() == progress@.first().improvement_score);
            assert(scores@.last() == progress@.last().improvement_score);
        }
    }
    ProgressReport { student_name: student_name.to_owned(), tracking_weeks: weeks, progress, overall_trend }
}

/// One aggregated week of class history, as the trends dashboard stores it;
/// averages in tenths, the rate in thousandths.
pub struct WeeklyTrend {
    pub week: usize,
    pub avg_study_hours: i64,
    pub avg_attendance: i64,
    pub pass_rate: i64,
    pub total_students: i64,
}

/// A small demonstration series of four aggregated weeks with steadily
/// improving averages.
pub fn sample_weekly_trends() -> (r: Vec<WeeklyTrend>)
    ensures
        r@.len() == 4,
        forall|i: int| 0 <= i < 4 ==> (#[trigger] r@[i]).week == i + 1,
        forall|i: int, j: int|
            0 <= i < j < 4 ==> (#[trigger] r@[i]).avg_study_hours < (#[trigger] r@[j]).avg_study_hours
                && r@[i].pass_rate < r@[j].pass_rate,
{
    let mut trends: Vec<WeeklyTrend> = Vec::new();
    trends.push(
        WeeklyTrend {
            week: 1,
            avg_study_hours: 52,
            avg_attendance: 750,
            pass_rate: 650,
            total_students: 45,
        },
    );
    trends.push(
        WeeklyTrend {
            week: 2,
            avg_study_hours: 58,
            avg_attendance: 780,
            pass_rate: 720,
            total_students: 52,
        },
    );
    trends.push(
        WeeklyTrend {
            week: 3,
            avg_study_hours: 61,
            avg_attendance: 800,
            pass_rate: 780,
            total_students: 48,
        },
    );
    trends.push(
        WeeklyTrend {
            week: 4,
            avg_study_hours: 65,
            avg_attendance: 820,
            pass_rate: 810,
            total_students: 55,
        },
    );
    trends
}

/// A small demonstration data set: five students with four observed weeks
/// each.
pub fn generate_mock_trends_data() -> (r: Vec<StudentHistory>)
    ensures
        r@.len() == 5,
        forall|i: int| 0 <= i < 5 ==> (#[trigger] r@[i]).weeks@.len() == 4,
        forall|i: int| 0 <= i < 5 ==> observations_bounded((#[trigger] r@[i]).weeks@),
{
    let mut data: Vec<StudentHistory> = Vec::new();
    data.push(
        StudentHistory {
            name: "Denis Lemayian".to_owned(),
            weeks: vec![(45, 700), (50, 750), (55, 800), (60, 850)],
        },
    );
    data.push(
        StudentHistory {
            name: "Saitoti Smith".to_owned(),
            weeks: vec![(60, 850), (65, 880), (70, 900), (75, 920)],
        },
    );
    data.push(
        StudentHistory {
            name: "Kukutia Johnson".to_owned(),
            weeks: vec![(30, 600), (35, 650), (40, 700), (45, 720)],
        },
    );
    data.push(
        StudentHistory {
            name: "Kirionki Williams".to_owned(),
            weeks: vec![(55, 780), (50, 750), (45, 720), (40, 680)],
        },
    );
    data.push(
        StudentHistory {
            name: "David Lemoita".to_owned(),
            weeks: vec![(70, 880), (75, 900), (80, 920), (85, 940)],
        },
    );
    data
}

} // verus!
