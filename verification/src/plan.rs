//! The study plan generator: grade targets, a greedy weekly schedule fill,
//! an ordered advice checklist and the plan duration.
//!
//! Hours and attendance are in tenths, as everywhere in this crate.

use vstd::prelude::*;

use crate::model::{clamped, TrainedModel};
use crate::rng::draw_in_range;

verus! {

/// The goal grade a plan aims at; anything unrecognized falls back to the
/// default target row.
#[derive(Clone, Copy, Debug, PartialEq, Eq, Structural)]
pub enum Grade {
    A,
    B,
    C,
    Pass,
    Other,
}

/// Weekly study hours floor for a goal grade, in tenths.
pub open spec fn grade_hours_floor(g: Grade) -> int {
    match g {
        Grade::A => 120,
        Grade::B => 90,
        Grade::C => 60,
        Grade::Pass => 50,
        Grade::Other => 80,
    }
}

/// Attendance floor for a goal grade, in tenths of a percent.
pub open spec fn grade_attendance_floor(g: Grade) -> int {
    match g {
        Grade::A => 950,
        Grade::B => 850,
        Grade::C => 750,
        Grade::Pass => 700,
        Grade::Other => 800,
    }
}

pub open spec fn max_of(a: int, b: int) -> int {
    if a >= b {
        a
    } else {
        b
    }
}

/// Plan length in weeks: the ceiling of `hours_gap / 0.5 + attendance_gap / 2`
/// (gaps in real units, never negative), clamped to [4, 12]. Over tenths this
/// ceiling is `(4 * gap_hours + gap_attendance + 19) / 20`.
pub open spec fn plan_duration_of(
    current_hours: int,
    target_hours: int,
    current_attendance: int,
    target_attendance: int,
) -> int {
    let gap_hours = max_of(target_hours - current_hours, 0);
    let gap_attendance = max_of(target_attendance - current_attendance, 0);
    clamped(4, 12, (4 * gap_hours + gap_attendance + 19) / 20)
}

/// One item of the plan's ordered advice checklist. The payloads are the gaps
/// the advice is about, in tenths.
#[derive(Clone, Copy, Debug, PartialEq, Eq, Structural)]
pub enum Advice {
    /// Increase weekly study time by the given gap.
    IncreaseStudyTime(i64),
    /// A gap above 5 hours: split study into smaller focused blocks.
    BreakIntoFocusedBlocks,
    /// Improve attendance by the given gap.
    ImproveAttendanceBy(i64),
    /// A gap above 10%: set reminders and prepare materials in advance.
    SetClassReminders,
    /// Under 6 weekly hours: establish a consistent daily routine.
    EstablishDailyRoutine,
    /// Under 75% attendance: prioritize going to class.
    PrioritizeAttendance,
    /// At least 8 hours and 80%: a good foundation to maintain.
    MaintainConsistency,
    ReviewNotesDaily,
    PracticePastPapers,
    JoinStudyGroups,
}

/// The full checklist for the given current metrics and targets, in order:
/// the conditional gap advice first, then the baseline habit advice, then the
/// three universal tips.
pub open spec fn recommendations_spec(
    current_hours: int,
    current_attendance: int,
    target_hours: int,
    target_attendance: int,
) -> Seq<Advice> {
    (if current_hours < target_hours {
        seq![Advice::IncreaseStudyTime((target_hours - current_hours) as i64)] + (if target_hours
            - current_hours > 50 {
            seq![Advice::BreakIntoFocusedBlocks]
        } else {
            Seq::<Advice>::empty()
        })
    } else {
        Seq::<Advice>::empty()
    }) + (if current_attendance < target_attendance {
        seq![Advice::ImproveAttendanceBy((target_attendance - current_attendance) as i64)] + (if
        target_attendance - current_attendance > 100 {
            seq![Advice::SetClassReminders]
        } else {
            Seq::<Advice>::empty()
        })
    } else {
        Seq::<Advice>::empty()
    }) + (if current_hours < 60 {
        seq![Advice::EstablishDailyRoutine]
    } else {
        Seq::<Advice>::empty()
    }) + (if current_attendance < 750 {
        seq![Advice::PrioritizeAttendance]
    } else {
        Seq::<Advice>::empty()
    }) + (if current_hours >= 80 && current_attendance >= 800 {
        seq![Advice::MaintainConsistency]
    } else {
        Seq::<Advice>::empty()
    }) + seq![Advice::ReviewNotesDaily, Advice::PracticePastPapers, Advice::JoinStudyGroups]
}

/// The templated narrative a plan closes with, selected by the goal grade.
#[derive(Clone, Copy, Debug, PartialEq, Eq, Structural)]
pub enum Outlook {
    HighChanceOfA,
    StrongFoundationForB,
    HabitsTowardC,
    BasicRoutineToPass,
    TailoredImprovement,
}

pub open spec fn outlook_of(g: Grade) -> Outlook {
    match g {
        Grade::A => Outlook::HighChanceOfA,
        Grade::B => Outlook::StrongFoundationForB,
        Grade::C => Outlook::HabitsTowardC,
        Grade::Pass => Outlook::BasicRoutineToPass,
        Grade::Other => Outlook::TailoredImprovement,
    }
}

/// The fixed subject catalog a schedule block draws from.
#[derive(Clone, Copy, Debug, PartialEq, Eq, Structural)]
pub enum Subject {
    Mathematics,
    Programming,
    Theory,
    Practical,
    Revision,
}

/// The fixed activity catalog a schedule block draws from.
#[derive(Clone, Copy, Debug, PartialEq, Eq, Structural)]
pub enum Activity {
    Reading,
    PracticeProblems,
    ReviewNotes,
    AssignmentWork,
    PastPapers,
}

/// One block of a day's schedule; the duration is in tenths of an hour.
pub struct StudyBlock {
    pub time: String,
    pub subject: Subject,
    pub activity: Activity,
    pub duration: i64,
}

pub struct DailySchedule {
    pub day: String,
    pub study_blocks: Vec<StudyBlock>,
}

pub struct StudyPlanRequest {
    pub student_name: String,
    /// Current weekly study hours, in tenths.
    pub current_hours: i64,
    /// Current attendance, in tenths of a percent.
    pub current_attendance: i64,
    pub target_grade: Grade,
    pub available_days: Vec<String>,
    pub preferred_times: Vec<String>,
}

pub struct StudyPlan {
    pub student_name: String,
    pub target_grade: Grade,
    /// Recommended weekly study hours, in tenths; never below the current.
    pub recommended_hours: i64,
    /// Target attendance, in tenths of a percent; never below the current.
    pub target_attendance: i64,
    /// Plan length in weeks, always within [4, 12].
    pub plan_duration: usize,
    pub weekly_schedule: Vec<DailySchedule>,
    pub recommendations: Vec<Advice>,
    pub expected_outcomes: Outlook,
    /// The timestamp the caller stamped the plan with.
    pub generated_at: i64,
}

/// A block's time slot comes from the student's preferred times, or from the
/// default rotation when none were given.
pub open spec fn block_time_ok(preferred: Seq<String>, time: Seq<char>) -> bool {
    if preferred.len() > 0 {
        exists|j: int| 0 <= j < preferred.len() && time == preferred[j]@
    } else {
        time == "Morning (8-11 AM)"@ || time == "Afternoon (2-5 PM)"@ || time
            == "Evening (7-10 PM)"@
    }
}

pub open spec fn sum_durations(s: Seq<StudyBlock>) -> int
    decreases s.len(),
{
    if s.len() == 0 {
        0
    } else {
        sum_durations(s.drop_last()) + s.last().duration
    }
}

/// What the greedy fill guarantees for one day's blocks: every block but
/// the last is a drawn slot of 1.5 to 2.5 hours; the last is either such a
/// slot too or the exact remainder that empties the day; together they
/// cover the day's target up to the fill tolerance, so the fill is bounded
/// by the day's hours over the smallest drawable slot.
pub open spec fn day_blocks_ok(preferred: Seq<String>, daily_hours: int, blocks: Seq<StudyBlock>) -> bool {
    &&& forall|i: int|
        0 <= i < blocks.len() ==> 1 <= (#[trigger] blocks[i]).duration <= 25 && block_time_ok(
            preferred,
            blocks[i].time@,
        )
    &&& forall|i: int| 0 <= i < blocks.len() - 1 ==> 15 <= (#[trigger] blocks[i]).duration
    &&& daily_hours <= 0 ==> blocks.len() == 0
    &&& daily_hours > 0 ==> blocks.len() >= 1 && daily_hours - 4 <= sum_durations(blocks)
        <= daily_hours + 5
    &&& daily_hours > 0 && blocks.last().duration < 15 ==> sum_durations(blocks) == daily_hours
    &&& daily_hours > 0 ==> blocks.len() <= daily_hours / 15 + 1
}

impl TrainedModel {
    /// The target row for a goal grade, each floor combined with the current
    /// value via max, so a plan never asks a student to regress.
    pub fn calculate_targets(&self, current_hours: i64, current_attendance: i64, target_grade: Grade) -> (r:
        (i64, i64))
        requires
            current_hours <= 1_000_000_000_000,
            current_attendance <= 1_000_000_000_000,
        ensures
            r.0 == max_of(current_hours as int, grade_hours_floor(target_grade)),
            r.1 == max_of(current_attendance as int, grade_attendance_floor(target_grade)),
    {
        let (hours_floor, attendance_floor): (i64, i64) = match target_grade {
            Grade::A => (120, 950),
            Grade::B => (90, 850),
            Grade::C => (60, 750),
            Grade::Pass => (50, 700),
            Grade::Other => (80, 800),
        };
        let target_hours = if current_hours >= hours_floor {
            current_hours
        } else {
            hours_floor
        };
        let target_attendance = if current_attendance >= attendance_floor {
            current_attendance
        } else {
            attendance_floor
        };
        (target_hours, target_attendance)
    }

    /// Weeks needed to close the gaps, clamped to [4, 12].
    pub fn calculate_plan_duration(
        &self,
        current_hours: i64,
        target_hours: i64,
        current_attendance: i64,
        target_attendance: i64,
    ) -> (r: usize)
        requires
            -1_000_000_000_000 <= current_hours <= 1_000_000_000_000,
            -1_000_000_000_000 <= target_hours <= 1_000_000_000_000,
            -1_000_000_000_000 <= current_attendance <= 1_000_000_000_000,
            -1_000_000_000_000 <= target_attendance <= 1_000_000_000_000,
        ensures
            r == plan_duration_of(
                current_hours as int,
                target_hours as int,
                current_attendance as int,
                target_attendance as int,
            ),
            4 <= r <= 12,
    {
        let gap_hours: i64 = if target_hours - current_hours > 0 {
            target_hours - current_hours
        } else {
            0
        };
        let gap_attendance: i64 = if target_attendance - current_attendance > 0 {
            target_attendance - current_attendance
        } else {
            0
        };
        let weeks: i64 = (4 * gap_hours + gap_attendance + 19) / 20;
        if weeks < 4 {
            4
        } else if weeks > 12 {
            12
        } else {
            weeks as usize
        }
    }

    /// The ordered advice checklist, exactly as `recommendations_spec` lays
    /// it out; the three universal tips always close the list.
    pub fn generate_recommendations(
        &self,
        current_hours: i64,
        current_attendance: i64,
        target_hours: i64,
        target_attendance: i64,
    ) -> (r: Vec<Advice>)
        requires
            -1_000_000_000_000 <= current_hours <= 1_000_000_000_000,
            -1_000_000_000_000 <= target_hours <= 1_000_000_000_000,
            -1_000_000_000_000 <= current_attendance <= 1_000_000_000_000,
            -1_000_000_000_000 <= target_attendance <= 1_000_000_000_000,
        ensures
            r@ == recommendations_spec(
                current_hours as int,
                current_attendance as int,
                target_hours as int,
                target_attendance as int,
            ),
            r@.len() >= 3,
    {
        let mut recommendations: Vec<Advice> = Vec::new();

        if current_hours < target_hours {
            recommendations.push(Advice::IncreaseStudyTime(target_hours - current_hours));
            if target_hours - current_hours > 50 {
                recommendations.push(Advice::BreakIntoFocusedBlocks);
            }
        }
        if current_attendance < target_attendance {
            recommendations.push(Advice::ImproveAttendanceBy(target_attendance - current_attendance));
            if target_attendance - current_attendance > 100 {
                recommendations.push(Advice::SetClassReminders);
            }
        }
        if current_hours < 60 {
            recommendations.push(Advice::EstablishDailyRoutine);
        }
        if current_attendance < 750 {
            recommendations.push(Advice::PrioritizeAttendance);
        }
        if current_hours >= 80 && current_attendance >= 800 {
            recommendations.push(Advice::MaintainConsistency);
        }
        recommendations.push(Advice::ReviewNotesDaily);
        recommendations.push(Advice::PracticePastPapers);
        recommendations.push(Advice::JoinStudyGroups);

        proof {
            assert(recommendations@ =~= recommendations_spec(
                current_hours as int,
                current_attendance as int,
                target_hours as int,
                target_attendance as int,
            ));
        }
        recommendations
    }

    /// The closing narrative is selected by the goal grade alone.
    pub fn calculate_expected_outcomes(&self, target_grade: Grade) -> (r: Outlook)
        ensures
            r == outlook_of(target_grade),
    {
        match target_grade {
            Grade::A => Outlook::HighChanceOfA,
            Grade::B => Outlook::StrongFoundationForB,
            Grade::C => Outlook::HabitsTowardC,
            Grade::Pass => Outlook::BasicRoutineToPass,
            Grade::Other => Outlook::TailoredImprovement,
        }
    }

    /// Greedy fill of one day: repeatedly allocate a drawn block of 1.5 to
    /// 2.5 hours (or the exact remainder when under 2 hours remain) until
    /// less than half an hour is left.
    pub fn generate_daily_blocks(&self, preferred_times: &Vec<String>, daily_hours: i64) -> (r: Vec<
        StudyBlock,
    >)
        requires
            preferred_times@.len() <= 100_000_000,
        ensures
            day_blocks_ok(preferred_times@, daily_hours as int, r@),
    {
        let mut blocks: Vec<StudyBlock> = Vec::new();
        if daily_hours <= 0 {
            return blocks;
        }
        let mut remaining: i64 = daily_hours;
        while remaining > 0
            invariant_except_break
                preferred_times@.len() <= 100_000_000,
                daily_hours > 0,
                -5 <= remaining <= daily_hours,
                sum_durations(blocks@) == daily_hours - remaining,
                blocks@.len() == 0 ==> remaining == daily_hours,
                // Only the iteration that leaves the loop may push a block
                // below the drawn range, so at the loop head every block is
                // a drawn slot.
                forall|i: int|
                    0 <= i < blocks@.len() ==> 15 <= (#[trigger] blocks@[i]).duration <= 25
                        && block_time_ok(preferred_times@, blocks@[i].time@),
                15 * blocks@.len() <= sum_durations(blocks@),
            ensures
                -5 <= remaining < 5,
                sum_durations(blocks@) == daily_hours - remaining,
                blocks@.len() >= 1,
                forall|i: int|
                    0 <= i < blocks@.len() ==> 1 <= (#[trigger] blocks@[i]).duration <= 25
                        && block_time_ok(preferred_times@, blocks@[i].time@),
                forall|i: int| 0 <= i < blocks@.len() - 1 ==> 15 <= (#[trigger] blocks@[i]).duration,
                blocks@.last().duration < 15 ==> remaining == 0,
                15 * (blocks@.len() - 1) <= daily_hours - 1,
            decreases remaining,
        {
            let duration: i64 = if remaining >= 20 {
                draw_in_range(15, 26)
            } else {
                remaining
            };

            let time: String = if preferred_times.len() > 0 {
                let idx = draw_in_range(0, preferred_times.len() as i64);
                preferred_times[idx as usize].clone()
            } else {
                let slot = draw_in_range(0, 3);
                if slot == 0 {
                    "Morning (8-11 AM)".to_owned()
                } else if slot == 1 {
                    "Afternoon (2-5 PM)".to_owned()
                } else {
                    "Evening (7-10 PM)".to_owned()
                }
            };

            let pick = draw_in_range(0, 5);
            let subject = if pick == 0 {
                Subject::Mathematics
            } else if pick == 1 {
                Subject::Programming
            } else if pick == 2 {
                Subject::Theory
            } else if pick == 3 {
                Subject::Practical
            } else {
                Subject::Revision
            };
            let pick = draw_in_range(0, 5);
            let activity = if pick == 0 {
                Activity::Reading
            } else if pick == 1 {
                Activity::PracticeProblems
            } else if pick == 2 {
                Activity::ReviewNotes
            } else if pick == 3 {
                Activity::AssignmentWork
            } else {
                Activity::PastPapers
            };

            let ghost prev = blocks@;
            blocks.push(StudyBlock { time, subject, activity, duration });
            proof {
                assert(blocks@.drop_last() =~= prev);
            }

            remaining = remaining - duration;
            if remaining < 5 {
                break ;
            }
        }
        proof {
            let len = blocks@.len() as int;
            vstd::arithmetic::div_mod::lemma_div_multiples_vanish(len - 1, 15);
            vstd::arithmetic::div_mod::lemma_div_is_ordered(
                15 * (len - 1),
                daily_hours as int,
                15,
            );
        }
        blocks
    }

    /// Divides the weekly target evenly over the available days (truncating
    /// to tenths) and fills each day greedily; no days means an empty
    /// schedule rather than an error.
    pub fn generate_weekly_schedule(
        &self,
        available_days: Vec<String>,
        preferred_times: Vec<String>,
        total_hours: i64,
    ) -> (r: Vec<DailySchedule>)
        requires
            available_days@.len() <= 100_000_000,
            preferred_times@.len() <= 100_000_000,
            0 <= total_hours <= 1_000_000_000_000,
        ensures
            r@.len() == available_days@.len(),
            forall|i: int| 0 <= i < r@.len() ==> (#[trigger] r@[i]).day@ == available_days@[i]@,
            available_days@.len() > 0 ==> forall|i: int|
                0 <= i < r@.len() ==> day_blocks_ok(
                    preferred_times@,
                    total_hours as int / available_days@.len() as int,
                    (#[trigger] r@[i]).study_blocks@,
                ),
    {
        let mut schedule: Vec<DailySchedule> = Vec::new();
        let n = available_days.len();
        if n == 0 {
            return schedule;
        }
        let hours_per_day: i64 = total_hours / (n as i64);
        let mut i: usize = 0;
        while i < n
            invariant
                n == available_days@.len(),
                0 < n <= 100_000_000,
                preferred_times@.len() <= 100_000_000,
                i <= n,
                schedule@.len() == i,
                0 <= total_hours <= 1_000_000_000_000,
                hours_per_day == total_hours as int / n as int,
                forall|j: int|
                    0 <= j < i ==> (#[trigger] schedule@[j]).day@ == available_days@[j]@,
                forall|j: int|
                    0 <= j < i ==> day_blocks_ok(
                        preferred_times@,
                        hours_per_day as int,
                        (#[trigger] schedule@[j]).study_blocks@,
                    ),
            decreases n - i,
        {
            let study_blocks = self.generate_daily_blocks(&preferred_times, hours_per_day);
            schedule.push(DailySchedule { day: available_days[i].clone(), study_blocks });
            i = i + 1;
        }
        schedule
    }

    /// Builds the whole plan: targets from the goal grade, the greedy weekly
    /// schedule, the advice checklist, the narrative and the clamped
    /// duration. The plan never regresses the student and always lasts 4 to
    /// 12 weeks.
    pub fn generate_study_plan(&self, request: &StudyPlanRequest, generated_at: i64) -> (r: StudyPlan)
        requires
            0 <= request.current_hours <= 1_000_000_000_000,
            0 <= request.current_attendance <= 1_000_000_000_000,
            request.available_days@.len() <= 100_000_000,
            request.preferred_times@.len() <= 100_000_000,
        ensures
            r.student_name@ == request.student_name@,
            r.target_grade == request.target_grade,
            r.recommended_hours == max_of(
                request.current_hours as int,
                grade_hours_floor(request.target_grade),
            ),
            r.target_attendance == max_of(
                request.current_attendance as int,
                grade_attendance_floor(request.target_grade),
            ),
            r.recommended_hours >= request.current_hours,
            r.target_attendance >= request.current_attendance,
            4 <= r.plan_duration <= 12,
            r.plan_duration == plan_duration_of(
                request.current_hours as int,
                r.recommended_hours as int,
                request.current_attendance as int,
                r.target_attendance as int,
            ),
            r.weekly_schedule@.len() == request.available_days@.len(),
            forall|i: int|
                0 <= i < r.weekly_schedule@.len() ==> (#[trigger] r.weekly_schedule@[i]).day@
                    == request.available_days@[i]@,
            request.available_days@.len() > 0 ==> forall|i: int|
                0 <= i < r.weekly_schedule@.len() ==> day_blocks_ok(
                    request.preferred_times@,
                    r.recommended_hours as int / request.available_days@.len() as int,
                    (#[trigger] r.weekly_schedule@[i]).study_blocks@,
                ),
            r.recommendations@ == recommendations_spec(
                request.current_hours as int,
                request.current_attendance as int,
                r.recommended_hours as int,
                r.target_attendance as int,
            ),
            r.expected_outcomes == outlook_of(request.target_grade),
            r.generated_at == generated_at,
    {
        let (target_hours, target_attendance) = self.calculate_targets(
            request.current_hours,
            request.current_attendance,
            request.target_grade,
        );

        let weekly_schedule = self.generate_weekly_schedule(
            request.available_days.clone(),
            request.preferred_times.clone(),
            target_hours,
        );

        let recommendations = self.generate_recommendations(
            request.current_hours,
            request.current_attendance,
            target_hours,
            target_attendance,
        );

        let expected_outcomes = self.calculate_expected_outcomes(request.target_grade);

        let plan_duration = self.calculate_plan_duration(
            request.current_hours,
            target_hours,
            request.current_attendance,
            target_attendance,
        );

        StudyPlan {
            student_name: request.student_name.clone(),
            target_grade: request.target_grade,
            recommended_hours: target_hours,
            target_attendance,
            plan_duration,
            weekly_schedule,
            recommendations,
            expected_outcomes,
            generated_at,
        }
    }
}

} // verus!
