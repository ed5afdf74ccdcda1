use student_success::model::{class_statistics, Recommendation, StudentRecord, TrainedModel};

fn record(name: &str, hours: i64, attendance: i64) -> StudentRecord {
    StudentRecord { name: name.to_string(), hours, attendance }
}

#[test]
fn strong_metrics_always_pass() {
    // 8.0 hours and 95% attendance: the base score is exactly 1.0, so any
    // admissible noise draw still passes with confidence in [0.9, 1.0].
    let model = TrainedModel::new();
    for _ in 0..50 {
        let (passed, confidence) = model.predict(80, 950);
        assert!(passed);
        assert!((90..=100).contains(&confidence));
    }
}

#[test]
fn confidence_always_favours_the_call() {
    let model = TrainedModel::new();
    for (h, a) in [(0, 0), (45, 720), (60, 800), (80, 950), (-20, 1200)] {
        let (_, confidence) = model.predict(h, a);
        assert!((50..=100).contains(&confidence));
    }
}

#[test]
fn noise_free_score_is_exact() {
    let model = TrainedModel::new();
    // 4.5 hours banded at 0.3, 72% attendance banded at 0.25: base 0.55.
    assert_eq!(model.score_with_noise(45, 720, 0), (true, 55));
    // The same with a -0.1 draw drops to 0.45: a fail at confidence 0.55.
    assert_eq!(model.score_with_noise(45, 720, -10), (false, 55));
    // Perfect bands clamp at 1.0.
    assert_eq!(model.score_with_noise(80, 950, 10), (true, 100));
    // The lowest bands with the worst draw clamp at 0.1: fail at 0.9.
    assert_eq!(model.score_with_noise(0, 0, -10), (false, 90));
}

#[test]
fn batch_counts_add_up() {
    let model = TrainedModel::new();
    let students = vec![
        record("a", 80, 950),
        record("b", 10, 100),
        record("c", 60, 800),
        record("d", 45, 720),
    ];
    let batch = model.batch_predict(students);
    assert_eq!(batch.total_students, 4);
    assert_eq!(batch.predictions.len(), 4);
    assert_eq!(batch.summary.pass_count + batch.summary.fail_count, 4);
    let expected_rate = batch.summary.pass_count as i64 * 1000 / 4;
    assert_eq!(batch.summary.pass_rate, expected_rate);
    let total: i64 = batch.predictions.iter().map(|p| p.confidence).sum();
    assert_eq!(batch.summary.avg_confidence, total / 4);
}

#[test]
fn batch_preserves_order_and_metrics() {
    let model = TrainedModel::new();
    let students = vec![record("first", 80, 950), record("second", 10, 100)];
    let batch = model.batch_predict(students);
    assert_eq!(batch.predictions[0].name, "first");
    assert_eq!(batch.predictions[0].hours, 80);
    assert_eq!(batch.predictions[0].attendance, 950);
    assert_eq!(batch.predictions[1].name, "second");
}

#[test]
fn batch_recommendation_table() {
    let model = TrainedModel::new();
    // 1.0 hours with 10% attendance: base 0.2, at most 0.3 after noise, so
    // this always fails, and under 5 hours selects the study-more row.
    let batch = model.batch_predict(vec![record("low", 10, 100)]);
    assert!(!batch.predictions[0].passed);
    assert_eq!(batch.predictions[0].recommendation, Recommendation::IncreaseStudyHours);

    // 6.0 hours with 55% attendance: base 0.6 at best band 0.5 + 0.1, so at
    // most 0.7 - always a pass or fail decided by noise; instead check the
    // attendance row with a guaranteed fail: 3.0 hours is under 5, so the
    // hours row wins over the attendance row.
    let batch = model.batch_predict(vec![record("absent", 30, 100)]);
    assert!(!batch.predictions[0].passed);
    assert_eq!(batch.predictions[0].recommendation, Recommendation::IncreaseStudyHours);

    // A guaranteed pass: either maintain or improve slightly, per the
    // confidence tier.
    let batch = model.batch_predict(vec![record("strong", 80, 950)]);
    let p = &batch.predictions[0];
    assert!(p.passed);
    if p.confidence > 80 {
        assert_eq!(p.recommendation, Recommendation::MaintainHabits);
    } else {
        assert_eq!(p.recommendation, Recommendation::SlightImprovements);
    }
}

#[test]
fn empty_batch_has_zero_rates() {
    let model = TrainedModel::new();
    let batch = model.batch_predict(Vec::new());
    assert_eq!(batch.total_students, 0);
    assert_eq!(batch.summary.pass_count, 0);
    assert_eq!(batch.summary.fail_count, 0);
    assert_eq!(batch.summary.pass_rate, 0);
    assert_eq!(batch.summary.avg_confidence, 0);
}

#[test]
fn class_statistics_aggregates_store() {
    let model = TrainedModel::new();
    let batch = model.batch_predict(vec![
        record("a", 80, 950),
        record("b", 10, 100),
        record("c", 60, 800),
    ]);
    let stats = class_statistics(&batch.predictions);
    assert_eq!(stats.total_students, 3);
    assert_eq!(stats.avg_study_hours, (80 + 10 + 60) / 3);
    assert_eq!(stats.avg_attendance, (950 + 100 + 800) / 3);
    let passes = batch.predictions.iter().filter(|p| p.passed).count() as i64;
    assert_eq!(stats.pass_rate, passes * 1000 / 3);
}

#[test]
fn class_statistics_of_empty_store() {
    let stats = class_statistics(&Vec::new());
    assert_eq!(stats.total_students, 0);
    assert_eq!(stats.pass_rate, 0);
    assert_eq!(stats.avg_study_hours, 0);
    assert_eq!(stats.avg_attendance, 0);
}

#[test]
fn trained_model_description() {
    let info = student_success::model::train_model(1700000000);
    assert_eq!(info.accuracy, 85);
    assert_eq!(info.features, vec!["study_hours", "attendance"]);
    assert_eq!(info.training_data_size, 1000);
    assert_eq!(info.model_type, "Logistic Regression");
    assert_eq!(info.last_updated, 1700000000);
}
