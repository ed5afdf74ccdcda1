use student_success::model::TrainedModel;
use student_success::plan::{Advice, Grade, Outlook, StudyPlanRequest};

fn request(hours: i64, attendance: i64, grade: Grade) -> StudyPlanRequest {
    StudyPlanRequest {
        student_name: "planner".to_string(),
        current_hours: hours,
        current_attendance: attendance,
        target_grade: grade,
        available_days: vec!["Monday".to_string(), "Wednesday".to_string(), "Friday".to_string()],
        preferred_times: vec!["Morning".to_string(), "Evening".to_string()],
    }
}

#[test]
fn grade_a_targets() {
    // 6.0 hours and 75% aiming at an A: the floors 12 hours and 95% win.
    let model = TrainedModel::new();
    let plan = model.generate_study_plan(&request(60, 750, Grade::A), 0);
    assert_eq!(plan.recommended_hours, 120);
    assert_eq!(plan.target_attendance, 950);
    assert_eq!(plan.expected_outcomes, Outlook::HighChanceOfA);
}

#[test]
fn targets_never_regress() {
    let model = TrainedModel::new();
    let plan = model.generate_study_plan(&request(130, 980, Grade::A), 0);
    assert_eq!(plan.recommended_hours, 130);
    assert_eq!(plan.target_attendance, 980);
}

#[test]
fn unrecognized_grade_falls_back() {
    let model = TrainedModel::new();
    let (hours, attendance) = model.calculate_targets(60, 750, Grade::Other);
    assert_eq!((hours, attendance), (80, 800));
}

#[test]
fn grade_rows() {
    let model = TrainedModel::new();
    assert_eq!(model.calculate_targets(0, 0, Grade::B), (90, 850));
    assert_eq!(model.calculate_targets(0, 0, Grade::C), (60, 750));
    assert_eq!(model.calculate_targets(0, 0, Grade::Pass), (50, 700));
}

#[test]
fn plan_duration_is_clamped() {
    let model = TrainedModel::new();
    // No gap at all still plans four weeks.
    assert_eq!(model.calculate_plan_duration(60, 60, 750, 750), 4);
    // A gap of 6 hours and 20%: ceil(12 + 10) = 22, clamped to 12.
    assert_eq!(model.calculate_plan_duration(60, 120, 750, 950), 12);
    // A gap of 2 hours: ceil(4) = 4.
    assert_eq!(model.calculate_plan_duration(40, 60, 800, 800), 4);
    // A gap of 3 hours and 2%: ceil(6 + 1) = 7.
    assert_eq!(model.calculate_plan_duration(30, 60, 780, 800), 7);
}

#[test]
fn plan_duration_within_bounds_for_any_gap() {
    let model = TrainedModel::new();
    for (ch, th, ca, ta) in [(0, 0, 0, 0), (0, 1000, 0, 1000), (50, 55, 700, 710)] {
        let d = model.calculate_plan_duration(ch, th, ca, ta);
        assert!((4..=12).contains(&d));
    }
}

#[test]
fn advice_checklist_order() {
    let model = TrainedModel::new();
    let advice = model.generate_recommendations(60, 750, 120, 950);
    assert_eq!(
        advice,
        vec![
            Advice::IncreaseStudyTime(60),
            Advice::BreakIntoFocusedBlocks,
            Advice::ImproveAttendanceBy(200),
            Advice::SetClassReminders,
            Advice::ReviewNotesDaily,
            Advice::PracticePastPapers,
            Advice::JoinStudyGroups,
        ]
    );
}

#[test]
fn advice_always_ends_with_universal_tips() {
    let model = TrainedModel::new();
    let advice = model.generate_recommendations(90, 900, 90, 900);
    assert_eq!(
        advice,
        vec![
            Advice::MaintainConsistency,
            Advice::ReviewNotesDaily,
            Advice::PracticePastPapers,
            Advice::JoinStudyGroups,
        ]
    );
}

#[test]
fn schedule_covers_available_days() {
    let model = TrainedModel::new();
    let plan = model.generate_study_plan(&request(60, 750, Grade::A), 7);
    assert_eq!(plan.weekly_schedule.len(), 3);
    assert_eq!(plan.weekly_schedule[0].day, "Monday");
    assert_eq!(plan.generated_at, 7);
    // 12.0 target hours over three days: 4.0 hours a day, filled greedily
    // with blocks of 1.5 to 2.5 hours (or the exact remainder).
    for day in &plan.weekly_schedule {
        assert!(!day.study_blocks.is_empty());
        // 4.0 daily hours admit at most 40 / 15 + 1 = 3 blocks.
        assert!(day.study_blocks.len() <= 3);
        let total: i64 = day.study_blocks.iter().map(|b| b.duration).sum();
        assert!((36..=45).contains(&total));
        for (i, block) in day.study_blocks.iter().enumerate() {
            // Every block but the last comes from the drawn range.
            if i + 1 < day.study_blocks.len() {
                assert!((15..=25).contains(&block.duration));
            } else {
                assert!((1..=25).contains(&block.duration));
            }
            assert!(block.time == "Morning" || block.time == "Evening");
        }
        // A final remainder block below the drawn range empties the day
        // exactly.
        let last = day.study_blocks.last().unwrap();
        if last.duration < 15 {
            assert_eq!(total, 40);
        }
    }
}

#[test]
fn no_available_days_yields_empty_schedule() {
    let model = TrainedModel::new();
    let mut req = request(60, 750, Grade::C);
    req.available_days.clear();
    let plan = model.generate_study_plan(&req, 0);
    assert!(plan.weekly_schedule.is_empty());
    // The rest of the plan is unaffected.
    assert_eq!(plan.recommended_hours, 60);
    assert!((4..=12).contains(&plan.plan_duration));
}

#[test]
fn default_time_rotation_when_no_preference() {
    let model = TrainedModel::new();
    let mut req = request(60, 750, Grade::C);
    req.preferred_times.clear();
    let plan = model.generate_study_plan(&req, 0);
    for day in &plan.weekly_schedule {
        for block in &day.study_blocks {
            assert!(
                block.time == "Morning (8-11 AM)"
                    || block.time == "Afternoon (2-5 PM)"
                    || block.time == "Evening (7-10 PM)"
            );
        }
    }
}
