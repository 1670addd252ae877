use vrm1_face_tracking::expression::{VrmExpression, VrmExpressionPreset};
use vrm1_face_tracking::live_expressions::LiveExpressionWeights;

#[test]
fn test_live_expression_weights() {
    let mut weights = LiveExpressionWeights::new();

    weights.set_weight("happy", 500_000);
    assert_eq!(weights.get_weight("happy"), 500_000);

    weights.set_weight("sad", 1_000_000);
    assert_eq!(weights.get_weight("sad"), 1_000_000);

    // Test clamping
    weights.set_weight("angry", 1_500_000);
    assert_eq!(weights.get_weight("angry"), 1_000_000);

    weights.clear();
    assert_eq!(weights.get_weight("happy"), 0);
}

#[test]
fn test_update_from_expressions() {
    let mut weights = LiveExpressionWeights::new();
    let expressions = vec![
        VrmExpression::new(VrmExpressionPreset::Happy, 800_000),
        VrmExpression::new(VrmExpressionPreset::Blink, 300_000),
    ];

    weights.update_from_expressions(&expressions);

    assert_eq!(weights.get_weight("happy"), 800_000);
    assert_eq!(weights.get_weight("blink"), 300_000);
    assert_eq!(weights.get_weight("sad"), 0);
}

#[test]
fn test_update_from_expressions_replaces_old_weights() {
    let mut weights = LiveExpressionWeights::new();
    weights.set_weight("relaxed", 900_000);

    let expressions = vec![VrmExpression::new(VrmExpressionPreset::Happy, 400_000)];
    weights.update_from_expressions(&expressions);

    // The old weight is gone, the new one is in.
    assert_eq!(weights.get_weight("relaxed"), 0);
    assert_eq!(weights.get_weight("happy"), 400_000);
}

#[test]
fn test_update_from_expressions_later_entry_wins() {
    let mut weights = LiveExpressionWeights::new();
    let expressions = vec![
        VrmExpression::new(VrmExpressionPreset::Happy, 200_000),
        VrmExpression::new(VrmExpressionPreset::Happy, 600_000),
    ];

    weights.update_from_expressions(&expressions);

    assert_eq!(weights.get_weight("happy"), 600_000);
}
