use student_success::analytics::{
    analyze_progress_trend, generate_mock_trends_data, track_student_progress, Performance, Trend,
    TrendRecommendation, TrendsAnalyzer,
};
use student_success::model::TrainedModel;

#[test]
fn rising_history_is_improving() {
    // Hours rise from 4.5 to 6.0 (more than 1) and attendance from 70% to
    // 85% (more than 5), so the trend is improving.
    let analyzer = TrendsAnalyzer::new();
    let trend = analyzer.generate_student_trend("rising", vec![(45, 700), (60, 850)]);
    assert_eq!(trend.trend, Trend::Improving);
    assert_eq!(trend.improvement_score, 6 * 15 + 4 * 150);
    assert_eq!(trend.student_name, "rising");
}

#[test]
fn falling_history_is_declining() {
    let analyzer = TrendsAnalyzer::new();
    let trend = analyzer.generate_student_trend("falling", vec![(60, 850), (45, 700)]);
    assert_eq!(trend.trend, Trend::Declining);
    // The raw delta is negative, so the improvement score clamps at zero.
    assert_eq!(trend.improvement_score, 0);
}

#[test]
fn short_history_is_stable_with_zero_score() {
    let analyzer = TrendsAnalyzer::new();
    let one = analyzer.generate_student_trend("one", vec![(60, 850)]);
    assert_eq!(one.trend, Trend::Stable);
    assert_eq!(one.improvement_score, 0);
    assert_eq!(one.current_performance, Performance::Good);

    let none = analyzer.generate_student_trend("none", vec![]);
    assert_eq!(none.trend, Trend::Stable);
    assert_eq!(none.improvement_score, 0);
    assert_eq!(none.current_performance, Performance::Unknown);
    assert_eq!(none.recommendation, TrendRecommendation::GatherMoreData);
}

#[test]
fn weekly_chart_series() {
    let analyzer = TrendsAnalyzer::new();
    let trend = analyzer.generate_student_trend("series", vec![(45, 700), (60, 850)]);
    assert_eq!(trend.weekly.len(), 2);
    assert_eq!(trend.weekly[0].week, 1);
    // 4.5 hours is under the 5-hour line: no predicted pass.
    assert!(!trend.weekly[0].predicted_pass);
    assert!(trend.weekly[1].predicted_pass);
    // Both confidences cap at 1.0 (10 * 45 + 700 and 10 * 60 + 850 exceed
    // 1000 thousandths).
    assert_eq!(trend.weekly[0].confidence, 1000);
    assert_eq!(trend.weekly[1].confidence, 1000);
}

#[test]
fn performance_tiers() {
    let analyzer = TrendsAnalyzer::new();
    let excellent = analyzer.generate_student_trend("e", vec![(80, 850)]);
    assert_eq!(excellent.current_performance, Performance::Excellent);
    assert_eq!(excellent.recommendation, TrendRecommendation::MaintainCurrentHabits);
    let average = analyzer.generate_student_trend("a", vec![(40, 650)]);
    assert_eq!(average.current_performance, Performance::Average);
    let poor = analyzer.generate_student_trend("p", vec![(10, 300)]);
    assert_eq!(poor.current_performance, Performance::NeedsImprovement);
    assert_eq!(poor.recommendation, TrendRecommendation::NeedsSignificantWork);
}

#[test]
fn class_trends_over_mock_data() {
    let analyzer = TrendsAnalyzer::new();
    let trends = analyzer.generate_class_trends(generate_mock_trends_data());
    assert_eq!(trends.weeks, vec![1, 2, 3, 4]);

    // Week one: hours 45+60+30+55+70 over five students, attendance
    // 700+850+600+780+880, and three of five predicted passes.
    assert_eq!(trends.avg_study_hours[0], 52);
    assert_eq!(trends.avg_attendance[0], 762);
    assert_eq!(trends.pass_rates[0], 600);

    // Cumulative scores rank David (3950) over Saitoti (3820), Denis
    // (3310), Kirionki (3120) and Kukutia (2820).
    assert_eq!(
        trends.top_performers,
        vec!["David Lemoita", "Saitoti Smith", "Denis Lemayian"]
    );
    assert_eq!(
        trends.at_risk,
        vec!["Denis Lemayian", "Kirionki Williams", "Kukutia Johnson"]
    );

    // Week four averages 61 hours-tenths and 822 attendance-tenths; the
    // mean improvement over week one is ((61-52) + (822-762)) / 2 = 34.5,
    // i.e. 3450 thousandths.
    assert_eq!(trends.average_improvement, 3450);
}

#[test]
fn class_trends_with_two_students_overlap() {
    let analyzer = TrendsAnalyzer::new();
    let mut data = generate_mock_trends_data();
    data.truncate(2);
    let trends = analyzer.generate_class_trends(data);
    assert_eq!(trends.top_performers.len(), 2);
    assert_eq!(trends.at_risk.len(), 2);
}

#[test]
fn class_trends_empty_class() {
    let analyzer = TrendsAnalyzer::new();
    let trends = analyzer.generate_class_trends(Vec::new());
    assert_eq!(trends.weeks, vec![1, 2, 3, 4]);
    assert_eq!(trends.avg_study_hours, vec![0, 0, 0, 0]);
    assert_eq!(trends.pass_rates, vec![0, 0, 0, 0]);
    assert!(trends.top_performers.is_empty());
    assert!(trends.at_risk.is_empty());
    assert_eq!(trends.average_improvement, 0);
}

#[test]
fn sample_weekly_trends_improve() {
    let trends = student_success::analytics::sample_weekly_trends();
    assert_eq!(trends.len(), 4);
    assert_eq!(trends[0].week, 1);
    assert_eq!(trends[0].avg_study_hours, 52);
    assert_eq!(trends[3].pass_rate, 810);
    for pair in trends.windows(2) {
        assert!(pair[0].avg_study_hours < pair[1].avg_study_hours);
        assert!(pair[0].pass_rate < pair[1].pass_rate);
    }
}

#[test]
fn progress_trend_thresholds() {
    assert_eq!(analyze_progress_trend(&vec![0, 1500]), Some(Trend::Improving));
    assert_eq!(analyze_progress_trend(&vec![2000, 500]), Some(Trend::Declining));
    assert_eq!(analyze_progress_trend(&vec![1000, 1500]), Some(Trend::Stable));
    assert_eq!(analyze_progress_trend(&vec![500]), None);
    assert_eq!(analyze_progress_trend(&vec![]), None);
}

#[test]
fn tracked_progress_has_one_row_per_week() {
    let model = TrainedModel::new();
    let report = track_student_progress(&model, "tracked", 8);
    assert_eq!(report.student_name, "tracked");
    assert_eq!(report.tracking_weeks, 8);
    assert_eq!(report.progress.len(), 8);
    for (i, row) in report.progress.iter().enumerate() {
        assert_eq!(row.week, i + 1);
        assert!(row.study_hours >= 0);
        assert!((0..=1000).contains(&row.attendance));
        assert_eq!(row.improvement_score, 6 * row.study_hours + 4 * row.attendance);
        assert!((50..=100).contains(&row.confidence));
    }
    assert!(report.overall_trend.is_some());

    let empty = track_student_progress(&model, "none", 0);
    assert!(empty.progress.is_empty());
    assert!(empty.overall_trend.is_none());
}
