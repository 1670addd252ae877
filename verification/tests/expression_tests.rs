use vrm1_face_tracking::expression::{
    ArkitToVrmAdapter, BlendshapeFrame, BlendshapeToExpression, VrmExpression, VrmExpressionPreset,
};

const UNIT: i64 = 1_000_000;

#[test]
fn test_vrm_expression_preset_as_str() {
    assert_eq!(VrmExpressionPreset::Happy.as_str(), "happy");
    assert_eq!(VrmExpressionPreset::Blink.as_str(), "blink");
    assert_eq!(VrmExpressionPreset::Aa.as_str(), "aa");
    assert_eq!(VrmExpressionPreset::LookUp.as_str(), "lookUp");
}

#[test]
fn test_vrm_expression_preset_as_str_full_vocabulary() {
    assert_eq!(VrmExpressionPreset::Angry.as_str(), "angry");
    assert_eq!(VrmExpressionPreset::Sad.as_str(), "sad");
    assert_eq!(VrmExpressionPreset::Relaxed.as_str(), "relaxed");
    assert_eq!(VrmExpressionPreset::Surprised.as_str(), "surprised");
    assert_eq!(VrmExpressionPreset::Ih.as_str(), "ih");
    assert_eq!(VrmExpressionPreset::Ou.as_str(), "ou");
    assert_eq!(VrmExpressionPreset::Ee.as_str(), "ee");
    assert_eq!(VrmExpressionPreset::Oh.as_str(), "oh");
    assert_eq!(VrmExpressionPreset::BlinkLeft.as_str(), "blinkLeft");
    assert_eq!(VrmExpressionPreset::BlinkRight.as_str(), "blinkRight");
    assert_eq!(VrmExpressionPreset::LookDown.as_str(), "lookDown");
    assert_eq!(VrmExpressionPreset::LookLeft.as_str(), "lookLeft");
    assert_eq!(VrmExpressionPreset::LookRight.as_str(), "lookRight");
    assert_eq!(VrmExpressionPreset::Neutral.as_str(), "neutral");
}

#[test]
fn test_vrm_expression_clamping() {
    // 1.5 units clamps down to one unit.
    let expr = VrmExpression::new(VrmExpressionPreset::Happy, 3 * UNIT / 2);
    assert_eq!(expr.weight, UNIT);

    // -0.5 units clamps up to zero.
    let expr = VrmExpression::new(VrmExpressionPreset::Sad, -UNIT / 2);
    assert_eq!(expr.weight, 0);
}

#[test]
fn test_arkit_adapter_blink() {
    let adapter = ArkitToVrmAdapter;
    let mut blendshapes = BlendshapeFrame::new();
    blendshapes.set("eyeBlinkLeft", 800_000);
    blendshapes.set("eyeBlinkRight", 900_000);

    let expressions = adapter.to_vrm_expressions(&blendshapes);

    // Should have BlinkLeft, BlinkRight, and combined Blink
    assert!(expressions
        .iter()
        .any(|e| e.preset == VrmExpressionPreset::BlinkLeft));
    assert!(expressions
        .iter()
        .any(|e| e.preset == VrmExpressionPreset::BlinkRight));
    assert!(expressions
        .iter()
        .any(|e| e.preset == VrmExpressionPreset::Blink));

    let blink = expressions
        .iter()
        .find(|e| e.preset == VrmExpressionPreset::Blink)
        .unwrap();
    // Average of 0.8 and 0.9, within a hundredth of a unit
    assert!((blink.weight - 850_000).abs() < 10_000);
}

#[test]
fn test_arkit_adapter_blink_exact_values() {
    let adapter = ArkitToVrmAdapter;
    let mut blendshapes = BlendshapeFrame::new();
    blendshapes.set("eyeBlinkLeft", 800_000);
    blendshapes.set("eyeBlinkRight", 900_000);

    let expressions = adapter.to_vrm_expressions(&blendshapes);

    let weight_of = |preset: VrmExpressionPreset| {
        expressions
            .iter()
            .find(|e| e.preset == preset)
            .map(|e| e.weight)
    };
    assert_eq!(weight_of(VrmExpressionPreset::BlinkLeft), Some(800_000));
    assert_eq!(weight_of(VrmExpressionPreset::BlinkRight), Some(900_000));
    assert_eq!(weight_of(VrmExpressionPreset::Blink), Some(850_000));
}

#[test]
fn test_arkit_adapter_smile() {
    let adapter = ArkitToVrmAdapter;
    let mut blendshapes = BlendshapeFrame::new();
    blendshapes.set("mouthSmileLeft", 700_000);
    blendshapes.set("mouthSmileRight", 700_000);

    let expressions = adapter.to_vrm_expressions(&blendshapes);

    assert!(expressions
        .iter()
        .any(|e| e.preset == VrmExpressionPreset::Happy));
}

#[test]
fn test_arkit_adapter_no_weak_emotions() {
    let adapter = ArkitToVrmAdapter;
    let mut blendshapes = BlendshapeFrame::new();
    // Weak smile below threshold
    blendshapes.set("mouthSmileLeft", 200_000);
    blendshapes.set("mouthSmileRight", 200_000);

    let expressions = adapter.to_vrm_expressions(&blendshapes);

    // Should not include Happy due to threshold
    assert!(!expressions
        .iter()
        .any(|e| e.preset == VrmExpressionPreset::Happy));
}

#[test]
fn test_arkit_adapter_smile_threshold_boundary() {
    let adapter = ArkitToVrmAdapter;

    // A smile mean of exactly 0.3 units only reaches the threshold: not emitted.
    let mut at_gate = BlendshapeFrame::new();
    at_gate.set("mouthSmileLeft", 300_000);
    at_gate.set("mouthSmileRight", 300_000);
    let expressions = adapter.to_vrm_expressions(&at_gate);
    assert!(!expressions
        .iter()
        .any(|e| e.preset == VrmExpressionPreset::Happy));

    // A smile mean of 0.30001 units exceeds the threshold: emitted.
    let mut above_gate = BlendshapeFrame::new();
    above_gate.set("mouthSmileLeft", 300_010);
    above_gate.set("mouthSmileRight", 300_010);
    let expressions = adapter.to_vrm_expressions(&above_gate);
    assert!(expressions
        .iter()
        .any(|e| e.preset == VrmExpressionPreset::Happy));
}

#[test]
fn test_arkit_adapter_eye_gaze() {
    let adapter = ArkitToVrmAdapter;
    let mut blendshapes = BlendshapeFrame::new();
    blendshapes.set("eyeLookUpLeft", 600_000);
    blendshapes.set("eyeLookUpRight", 400_000);

    let expressions = adapter.to_vrm_expressions(&blendshapes);

    let look_up = expressions
        .iter()
        .find(|e| e.preset == VrmExpressionPreset::LookUp)
        .unwrap();
    // Average, within a hundredth of a unit
    assert!((look_up.weight - 500_000).abs() < 10_000);
}

#[test]
fn test_arkit_adapter_lip_sync_gate() {
    let adapter = ArkitToVrmAdapter;
    let mut blendshapes = BlendshapeFrame::new();
    blendshapes.set("jawOpen", 700_000);
    blendshapes.set("mouthPucker", 500_000);
    blendshapes.set("mouthFunnel", 500_001);

    let expressions = adapter.to_vrm_expressions(&blendshapes);

    // Exactly at the lip gate is not enough; strictly above it is.
    assert!(expressions
        .iter()
        .any(|e| e.preset == VrmExpressionPreset::Aa && e.weight == 700_000));
    assert!(!expressions
        .iter()
        .any(|e| e.preset == VrmExpressionPreset::Ou));
    assert!(expressions
        .iter()
        .any(|e| e.preset == VrmExpressionPreset::Oh && e.weight == 500_001));
}

#[test]
fn test_arkit_adapter_all_weights_clamped() {
    let adapter = ArkitToVrmAdapter;
    let mut blendshapes = BlendshapeFrame::new();
    // A spiking tracker can exceed one unit; the outputs never do.
    blendshapes.set("eyeBlinkLeft", 3 * UNIT);
    blendshapes.set("eyeBlinkRight", 2 * UNIT);
    blendshapes.set("jawOpen", 5 * UNIT);
    blendshapes.set("mouthSmileLeft", 2 * UNIT);
    blendshapes.set("mouthSmileRight", 2 * UNIT);

    // Clamping is what the adapter capability itself promises, so go
    // through the trait.
    let expressions = BlendshapeToExpression::to_vrm_expressions(&adapter, &blendshapes);

    assert!(!expressions.is_empty());
    for e in &expressions {
        assert!(0 <= e.weight && e.weight <= UNIT);
    }
}

#[test]
fn test_arkit_adapter_repeated_calls_identical() {
    let adapter = ArkitToVrmAdapter;
    let mut blendshapes = BlendshapeFrame::new();
    blendshapes.set("eyeBlinkLeft", 420_000);
    blendshapes.set("mouthSmileLeft", 800_000);
    blendshapes.set("mouthSmileRight", 650_000);
    blendshapes.set("jawOpen", 770_000);

    let first = adapter.to_vrm_expressions(&blendshapes);
    let second = adapter.to_vrm_expressions(&blendshapes);

    assert_eq!(first.len(), second.len());
    for (a, b) in first.iter().zip(second.iter()) {
        assert_eq!(a.preset, b.preset);
        assert_eq!(a.weight, b.weight);
    }
}

#[test]
fn test_blendshape_frame_missing_reads_zero() {
    let mut frame = BlendshapeFrame::new();
    assert_eq!(frame.coefficient("eyeBlinkLeft"), 0);
    frame.set("eyeBlinkLeft", 250_000);
    assert_eq!(frame.coefficient("eyeBlinkLeft"), 250_000);
    // Overwriting replaces the old value.
    frame.set("eyeBlinkLeft", 100_000);
    assert_eq!(frame.coefficient("eyeBlinkLeft"), 100_000);
    assert_eq!(frame.coefficient("eyeBlinkRight"), 0);
}
