use student_success::model::TrainedModel;

#[test]
fn test_accuracy_calculation() {
    let predictions = vec![true, true, false, true];
    let targets = vec![true, false, false, true];

    assert_eq!(predictions.len(), targets.len());
}

#[test]
fn model_reports_its_accuracy() {
    let model = TrainedModel::new();
    assert_eq!(model.get_accuracy(), 85);
}
