//! The outcome scorer: a fixed scoring rubric over weekly study hours and
//! class attendance, perturbed by a bounded noise term.
//!
//! Hours and attendance are in tenths (8.0 hours is 80, 95% attendance is
//! 950); scores and confidences are in hundredths (0.6 is 60).

use vstd::prelude::*;

use crate::rng::draw_in_range;

verus! {

/// The banded contribution of weekly study hours to the base score.
pub open spec fn hours_band(hours: int) -> int {
    if hours >= 80 {
        60
    } else if hours >= 60 {
        50
    } else if hours >= 40 {
        30
    } else {
        10
    }
}

/// The banded contribution of attendance to the base score.
pub open spec fn attendance_band(attendance: int) -> int {
    if attendance >= 900 {
        40
    } else if attendance >= 800 {
        35
    } else if attendance >= 700 {
        25
    } else {
        10
    }
}

/// The deterministic part of the score, before the noise term.
pub open spec fn base_score(hours: int, attendance: int) -> int {
    hours_band(hours) + attendance_band(attendance)
}

pub open spec fn clamped(lo: int, hi: int, x: int) -> int {
    if x < lo {
        lo
    } else if x > hi {
        hi
    } else {
        x
    }
}

/// The score once a noise term has been added and the sum clamped to [0, 1].
pub open spec fn noisy_score(hours: int, attendance: int, noise: int) -> int {
    clamped(0, 100, base_score(hours, attendance) + noise)
}

/// What the scorer returns for a given noise draw: the pass call and the
/// confidence, which always favours the chosen class.
pub open spec fn scored(hours: int, attendance: int, noise: int) -> (bool, int) {
    let s = noisy_score(hours, attendance, noise);
    if s >= 50 {
        (true, s)
    } else {
        (false, 100 - s)
    }
}

/// A description of the rubric behind the scorer; the accuracy is in
/// hundredths.
pub struct ModelInfo {
    pub accuracy: i64,
    pub features: Vec<String>,
    pub training_data_size: usize,
    pub model_type: String,
    /// The timestamp the caller stamped the description with.
    pub last_updated: i64,
}

/// Aggregate dashboard figures; rates are in thousandths and hours and
/// attendance in tenths.
pub struct AnalyticsData {
    pub total_students: usize,
    pub pass_rate: i64,
    pub avg_study_hours: i64,
    pub avg_attendance: i64,
    pub performance_breakdown: Vec<PerformanceCategory>,
}

/// One row of a dashboard's performance breakdown; the rate is in
/// thousandths.
pub struct PerformanceCategory {
    pub range: String,
    pub count: usize,
    pub pass_rate: i64,
}

/// Describes the fixed rubric: two features, a claimed accuracy of 0.85.
pub fn train_model(last_updated: i64) -> (r: ModelInfo)
    ensures
        r.accuracy == 85,
        r.features@.len() == 2,
        r.features@[0]@ == "study_hours"@,
        r.features@[1]@ == "attendance"@,
        r.training_data_size == 1000,
        r.model_type@ == "Logistic Regression"@,
        r.last_updated == last_updated,
{
    let mut features: Vec<String> = Vec::new();
    features.push("study_hours".to_owned());
    features.push("attendance".to_owned());
    ModelInfo {
        accuracy: 85,
        features,
        training_data_size: 1000,
        model_type: "Logistic Regression".to_owned(),
        last_updated,
    }
}

/// One named student's metrics, in tenths.
pub struct StudentRecord {
    pub name: String,
    pub hours: i64,
    pub attendance: i64,
}

/// A single pass/fail call with its confidence in hundredths.
pub struct PredictResponse {
    pub passed: bool,
    pub confidence: i64,
}

/// The fixed advice table keyed on the pass call, the confidence tier and the
/// raw metrics.
#[derive(Clone, Copy, Debug, PartialEq, Eq, Structural)]
pub enum Recommendation {
    /// Passing with confidence above 0.8: keep the current habits.
    MaintainHabits,
    /// Passing with lower confidence: improve slightly.
    SlightImprovements,
    /// Failing with under 5 weekly hours: study more.
    IncreaseStudyHours,
    /// Failing with attendance under 70%: attend more.
    ImproveAttendance,
    /// Failing with neither obvious gap: seek support.
    SeekAcademicSupport,
}

pub open spec fn recommendation_of(
    passed: bool,
    confidence: int,
    hours: int,
    attendance: int,
) -> Recommendation {
    if passed {
        if confidence > 80 {
            Recommendation::MaintainHabits
        } else {
            Recommendation::SlightImprovements
        }
    } else {
        if hours < 50 {
            Recommendation::IncreaseStudyHours
        } else if attendance < 700 {
            Recommendation::ImproveAttendance
        } else {
            Recommendation::SeekAcademicSupport
        }
    }
}

pub struct StudentPrediction {
    pub name: String,
    pub hours: i64,
    pub attendance: i64,
    pub passed: bool,
    pub confidence: i64,
    pub recommendation: Recommendation,
}

/// Aggregate statistics over one batch; the rate is in thousandths and the
/// average confidence in hundredths, both truncated.
pub struct BatchSummary {
    pub pass_count: usize,
    pub fail_count: usize,
    pub pass_rate: i64,
    pub avg_confidence: i64,
}

pub struct BatchPredictResponse {
    pub predictions: Vec<StudentPrediction>,
    pub summary: BatchSummary,
    pub total_students: usize,
}

/// How many of the predictions carry a pass call.
pub open spec fn count_passed(s: Seq<StudentPrediction>) -> int
    decreases s.len(),
{
    if s.len() == 0 {
        0
    } else {
        count_passed(s.drop_last()) + if s.last().passed {
            1int
        } else {
            0int
        }
    }
}

pub open spec fn sum_confidence(s: Seq<StudentPrediction>) -> int
    decreases s.len(),
{
    if s.len() == 0 {
        0
    } else {
        sum_confidence(s.drop_last()) + s.last().confidence
    }
}

/// Aggregate statistics over stored predictions, as a dashboard reports
/// them: the rate in thousandths, the averages in tenths, all truncated and
/// zero for an empty store.
pub struct ClassStatistics {
    pub total_students: usize,
    pub pass_rate: i64,
    pub avg_study_hours: i64,
    pub avg_attendance: i64,
}

pub open spec fn sum_pred_hours(s: Seq<StudentPrediction>) -> int
    decreases s.len(),
{
    if s.len() == 0 {
        0
    } else {
        sum_pred_hours(s.drop_last()) + s.last().hours
    }
}

pub open spec fn sum_pred_attendance(s: Seq<StudentPrediction>) -> int
    decreases s.len(),
{
    if s.len() == 0 {
        0
    } else {
        sum_pred_attendance(s.drop_last()) + s.last().attendance
    }
}

/// Nonnegative metrics within the aggregation bounds.
pub open spec fn predictions_bounded(s: Seq<StudentPrediction>) -> bool {
    &&& s.len() <= 1_000_000
    &&& forall|i: int|
        0 <= i < s.len() ==> 0 <= (#[trigger] s[i]).hours <= 1_000_000_000 && 0 <= s[i].attendance
            <= 1_000_000_000
}

/// Truncated average of a nonnegative sum over `cnt` values each at most
/// 1e9, or zero when `cnt` is zero.
pub(crate) fn avg_of(sum: i64, cnt: i64) -> (r: i64)
    requires
        0 <= cnt,
        0 <= sum <= cnt * 1_000_000_000,
    ensures
        r == if cnt > 0 {
            sum as int / cnt as int
        } else {
            0int
        },
        0 <= r <= 1_000_000_000,
{
    if cnt > 0 {
        proof {
            vstd::arithmetic::div_mod::lemma_div_pos_is_pos(sum as int, cnt as int);
            vstd::arithmetic::div_mod::lemma_div_is_ordered(
                sum as int,
                cnt as int * 1_000_000_000,
                cnt as int,
            );
            vstd::arithmetic::div_mod::lemma_div_multiples_vanish(1_000_000_000, cnt as int);
        }
        sum / cnt
    } else {
        0
    }
}

/// Share of `part` in `cnt` as a truncated rate in thousandths, or zero when
/// `cnt` is zero.
pub(crate) fn rate_of(part: i64, cnt: i64) -> (r: i64)
    requires
        0 <= part <= cnt <= 1_000_000_000,
    ensures
        r == if cnt > 0 {
            part * 1000 / cnt as int
        } else {
            0int
        },
        0 <= r <= 1000,
{
    if cnt > 0 {
        proof {
            vstd::arithmetic::div_mod::lemma_div_pos_is_pos(part as int * 1000, cnt as int);
            vstd::arithmetic::div_mod::lemma_div_is_ordered(
                part as int * 1000,
                cnt as int * 1000,
                cnt as int,
            );
            vstd::arithmetic::div_mod::lemma_div_multiples_vanish(1000, cnt as int);
        }
        part * 1000 / cnt
    } else {
        0
    }
}

/// Aggregates a store of predictions the way the dashboard's statistics view
/// does: the pass rate and the truncated metric averages, zero when the
/// store is empty.
pub fn class_statistics(predictions: &Vec<StudentPrediction>) -> (r: ClassStatistics)
    requires
        predictions_bounded(predictions@),
    ensures
        r.total_students == predictions@.len(),
        r.pass_rate == if predictions@.len() > 0 {
            count_passed(predictions@) * 1000 / predictions@.len() as int
        } else {
            0int
        },
        r.avg_study_hours == if predictions@.len() > 0 {
            sum_pred_hours(predictions@) / predictions@.len() as int
        } else {
            0int
        },
        r.avg_attendance == if predictions@.len() > 0 {
            sum_pred_attendance(predictions@) / predictions@.len() as int
        } else {
            0int
        },
{
    let n = predictions.len();
    let mut pass_count: i64 = 0;
    let mut sum_hours: i64 = 0;
    let mut sum_attendance: i64 = 0;
    let mut i: usize = 0;
    while i < n
        invariant
            n == predictions@.len(),
            predictions_bounded(predictions@),
            i <= n,
            pass_count == count_passed(predictions@.take(i as int)),
            sum_hours == sum_pred_hours(predictions@.take(i as int)),
            sum_attendance == sum_pred_attendance(predictions@.take(i as int)),
            0 <= pass_count <= i,
            0 <= sum_hours <= i * 1_000_000_000,
            0 <= sum_attendance <= i * 1_000_000_000,
        decreases n - i,
    {
        let ghost prev = predictions@.take(i as int);
        if predictions[i].passed {
            pass_count = pass_count + 1;
        }
        sum_hours = sum_hours + predictions[i].hours;
        sum_attendance = sum_attendance + predictions[i].attendance;
        proof {
            assert(predictions@.take(i + 1).drop_last() =~= prev);
            assert(predictions@.take(i + 1).last() == predictions@[i as int]);
        }
        i = i + 1;
    }
    proof {
        assert(predictions@.take(n as int) =~= predictions@);
    }
    ClassStatistics {
        total_students: n,
        pass_rate: rate_of(pass_count, n as i64),
        avg_study_hours: avg_of(sum_hours, n as i64),
        avg_attendance: avg_of(sum_attendance, n as i64),
    }
}

/// What one prediction of a batch must be, relative to its input record: the
/// metrics echoed back, the scorer's result for some admissible noise draw,
/// and the advice row those values select.
pub open spec fn prediction_matches(s: StudentRecord, p: StudentPrediction) -> bool {
    &&& p.name@ == s.name@
    &&& p.hours == s.hours
    &&& p.attendance == s.attendance
    &&& exists|noise: int|
        -10 <= noise <= 10 && (p.passed, p.confidence as int) == scored(
            s.hours as int,
            s.attendance as int,
            noise,
        )
    &&& 50 <= p.confidence <= 100
    &&& p.recommendation == recommendation_of(
        p.passed,
        p.confidence as int,
        s.hours as int,
        s.attendance as int,
    )
    &&& s.hours >= 80 && s.attendance >= 900 ==> p.passed && 90 <= p.confidence <= 100
}

pub struct TrainedModel {
    /// Hours of weekly study below which a failing student is told to study
    /// more, in tenths.
    pub study_hours_threshold: i64,
    /// Attendance below which a failing student is told to attend more, in
    /// tenths of a percent.
    pub attendance_threshold: i64,
    /// The rubric's claimed accuracy, in hundredths.
    pub base_accuracy: i64,
}

impl TrainedModel {
    pub fn new() -> (r: Self)
        ensures
            r.study_hours_threshold == 50,
            r.attendance_threshold == 750,
            r.base_accuracy == 85,
    {
        Self { study_hours_threshold: 50, attendance_threshold: 750, base_accuracy: 85 }
    }

    pub fn get_accuracy(&self) -> (r: i64)
        ensures
            r == self.base_accuracy,
    {
        self.base_accuracy
    }

    /// The deterministic core of the scorer: given the noise draw, the result
    /// is pinned down exactly.
    pub fn score_with_noise(&self, hours: i64, attendance: i64, noise: i64) -> (r: (bool, i64))
        requires
            -100 <= noise <= 100,
        ensures
            (r.0, r.1 as int) == scored(hours as int, attendance as int, noise as int),
            50 <= r.1 <= 100,
    {
        let mut score: i64 = 0;

        if hours >= 80 {
            score = score + 60;
        } else if hours >= 60 {
            score = score + 50;
        } else if hours >= 40 {
            score = score + 30;
        } else {
            score = score + 10;
        }

        if attendance >= 900 {
            score = score + 40;
        } else if attendance >= 800 {
            score = score + 35;
        } else if attendance >= 700 {
            score = score + 25;
        } else {
            score = score + 10;
        }

        score = score + noise;
        let clamped_score: i64 = if score < 0 {
            0
        } else if score > 100 {
            100
        } else {
            score
        };

        let passed = clamped_score >= 50;
        let confidence = if passed {
            clamped_score
        } else {
            100 - clamped_score
        };
        (passed, confidence)
    }

    /// Scores one student: the banded base score, a noise draw in [-0.1, 0.1],
    /// a clamp to [0, 1], then the pass call at 0.5. Returns the call and the
    /// confidence in hundredths.
    pub fn predict(&self, hours: i64, attendance: i64) -> (r: (bool, i64))
        ensures
            exists|noise: int|
                -10 <= noise <= 10 && (r.0, r.1 as int) == scored(
                    hours as int,
                    attendance as int,
                    noise,
                ),
            50 <= r.1 <= 100,
            hours >= 80 && attendance >= 900 ==> r.0 && 90 <= r.1 <= 100,
    {
        let noise = draw_in_range(-10, 11);
        let r = self.score_with_noise(hours, attendance, noise);
        proof {
            assert((r.0, r.1 as int) == scored(hours as int, attendance as int, noise as int));
        }
        r
    }

    /// Scores every record of a batch in order and aggregates the summary:
    /// the counts always add up to the batch size, and the rate and average
    /// are exactly the truncated quotients (zero for an empty batch).
    pub fn batch_predict(&self, students: Vec<StudentRecord>) -> (r: BatchPredictResponse)
        requires
            students@.len() <= 100_000_000,
        ensures
            r.total_students == students@.len(),
            r.predictions@.len() == students@.len(),
            forall|i: int|
                0 <= i < students@.len() ==> prediction_matches(
                    students@[i],
                    #[trigger] r.predictions@[i],
                ),
            r.summary.pass_count == count_passed(r.predictions@),
            r.summary.pass_count + r.summary.fail_count == r.total_students,
            r.summary.pass_rate == if r.total_students > 0 {
                count_passed(r.predictions@) * 1000 / r.total_students as int
            } else {
                0int
            },
            r.summary.avg_confidence == if r.total_students > 0 {
                sum_confidence(r.predictions@) / r.total_students as int
            } else {
                0int
            },
    {
        let n = students.len();
        let mut predictions: Vec<StudentPrediction> = Vec::new();
        let mut pass_count: usize = 0;
        let mut fail_count: usize = 0;
        let mut total_confidence: i64 = 0;
        let mut i: usize = 0;
        while i < n
            invariant
                n == students@.len() <= 100_000_000,
                i <= n,
                predictions@.len() == i,
                forall|j: int|
                    0 <= j < i ==> prediction_matches(students@[j], #[trigger] predictions@[j]),
                pass_count == count_passed(predictions@),
                pass_count + fail_count == i,
                total_confidence == sum_confidence(predictions@),
                0 <= total_confidence <= 100 * i,
            decreases n - i,
        {
            let ghost prev = predictions@;
            let s = &students[i];
            let (passed, confidence) = self.predict(s.hours, s.attendance);
            let recommendation = if passed {
                if confidence > 80 {
                    Recommendation::MaintainHabits
                } else {
                    Recommendation::SlightImprovements
                }
            } else {
                if s.hours < 50 {
                    Recommendation::IncreaseStudyHours
                } else if s.attendance < 700 {
                    Recommendation::ImproveAttendance
                } else {
                    Recommendation::SeekAcademicSupport
                }
            };
            if passed {
                pass_count = pass_count + 1;
            } else {
                fail_count = fail_count + 1;
            }
            total_confidence = total_confidence + confidence;
            predictions.push(
                StudentPrediction {
                    name: s.name.clone(),
                    hours: s.hours,
                    attendance: s.attendance,
                    passed,
                    confidence,
                    recommendation,
                },
            );
            proof {
                assert(predictions@.drop_last() =~= prev);
            }
            i = i + 1;
        }
        let total_students = predictions.len();
        let pass_rate: i64 = if total_students > 0 {
            (pass_count as i64) * 1000 / (total_students as i64)
        } else {
            0
        };
        let avg_confidence: i64 = if total_students > 0 {
            total_confidence / (total_students as i64)
        } else {
            0
        };
        BatchPredictResponse {
            predictions,
            summary: BatchSummary { pass_count, fail_count, pass_rate, avg_confidence },
            total_students,
        }
    }
}

} // verus!
