use glam::{Quat, Vec3};
use vrm1_face_tracking::pose::{
    MediaPipePoseAdapter, PoseLandmarkIndex, PoseWorldLandmark, rotation_between_vectors,
};
use vrm1_face_tracking::vec3::{QuatFp, Vec3Fp};

const UNIT: i64 = 1_000_000;

/// Read a fixed-point quaternion back as a float quaternion.
fn to_glam(q: &QuatFp) -> Quat {
    Quat::from_xyzw(
        q.x as f32 / UNIT as f32,
        q.y as f32 / UNIT as f32,
        q.z as f32 / UNIT as f32,
        q.w as f32 / UNIT as f32,
    )
    .normalize()
}

#[test]
fn test_rotation_between_vectors_identity() {
    let from = Vec3Fp::new(UNIT, 0, 0);
    let to = Vec3Fp::new(UNIT, 0, 0);
    let rotation = rotation_between_vectors(&from, &to);
    assert!((rotation.w as f32 / UNIT as f32 - 1.0).abs() < 0.001);
}

#[test]
fn test_rotation_identity_is_exact() {
    // Equal directions give the identity quaternion exactly, not merely
    // within tolerance.
    let v = Vec3Fp::new(267_000, -534_000, 801_000);
    let rotation = rotation_between_vectors(&v, &v);
    assert_eq!(rotation.x, 0);
    assert_eq!(rotation.y, 0);
    assert_eq!(rotation.z, 0);
    assert_eq!(rotation.w, UNIT);
}

#[test]
fn test_rotation_between_vectors_90deg() {
    let from = Vec3Fp::new(UNIT, 0, 0);
    let to = Vec3Fp::new(0, UNIT, 0);
    let rotation = rotation_between_vectors(&from, &to);

    // Apply rotation to from vector
    let result = to_glam(&rotation) * Vec3::new(1.0, 0.0, 0.0);

    // Should be close to 'to' vector
    assert!((result - Vec3::new(0.0, 1.0, 0.0)).length() < 0.001);
}

#[test]
fn test_rotation_between_vectors_antiparallel() {
    let from = Vec3Fp::new(UNIT, 0, 0);
    let to = Vec3Fp::new(-UNIT, 0, 0);
    let rotation = rotation_between_vectors(&from, &to);

    // A half-turn about a perpendicular axis: from maps onto to.
    let result = to_glam(&rotation) * Vec3::new(1.0, 0.0, 0.0);
    assert!((result - Vec3::new(-1.0, 0.0, 0.0)).length() < 0.001);
}

#[test]
fn test_adapter_insufficient_landmarks() {
    let landmarks = vec![];
    let rotations = MediaPipePoseAdapter::landmarks_to_bone_rotations(&landmarks);
    assert_eq!(rotations.len(), 0);
}

#[test]
fn test_adapter_short_sequence_ignores_content() {
    // Even fully visible landmarks are not enough below 33 entries.
    let landmarks = vec![
        PoseWorldLandmark {
            x: 100_000,
            y: 200_000,
            z: 300_000,
            visibility: 900_000,
        };
        32
    ];
    let rotations = MediaPipePoseAdapter::landmarks_to_bone_rotations(&landmarks);
    assert_eq!(rotations.len(), 0);
}

#[test]
fn test_adapter_invisible_landmarks_yield_nothing() {
    // A complete sequence whose visibilities are all zero maps to nothing.
    let landmarks = vec![
        PoseWorldLandmark {
            x: 150_000,
            y: -250_000,
            z: 50_000,
            visibility: 0,
        };
        33
    ];
    let rotations = MediaPipePoseAdapter::landmarks_to_bone_rotations(&landmarks);
    assert_eq!(rotations.len(), 0);
}

#[test]
fn test_adapter_with_valid_landmarks() {
    // Create 33 landmarks with some visible upper body landmarks
    let mut landmarks = vec![
        PoseWorldLandmark {
            x: 0,
            y: 0,
            z: 0,
            visibility: 0,
        };
        33
    ];

    // Set visible left arm landmarks
    landmarks[PoseLandmarkIndex::LeftShoulder.index()] = PoseWorldLandmark {
        x: -200_000,
        y: 500_000,
        z: 0,
        visibility: 900_000,
    };
    landmarks[PoseLandmarkIndex::LeftElbow.index()] = PoseWorldLandmark {
        x: -400_000,
        y: 300_000,
        z: 0,
        visibility: 900_000,
    };
    landmarks[PoseLandmarkIndex::LeftWrist.index()] = PoseWorldLandmark {
        x: -500_000,
        y: 100_000,
        z: 0,
        visibility: 900_000,
    };

    // Set visible right arm landmarks
    landmarks[PoseLandmarkIndex::RightShoulder.index()] = PoseWorldLandmark {
        x: 200_000,
        y: 500_000,
        z: 0,
        visibility: 900_000,
    };
    landmarks[PoseLandmarkIndex::RightElbow.index()] = PoseWorldLandmark {
        x: 400_000,
        y: 300_000,
        z: 0,
        visibility: 900_000,
    };
    landmarks[PoseLandmarkIndex::RightWrist.index()] = PoseWorldLandmark {
        x: 500_000,
        y: 100_000,
        z: 0,
        visibility: 900_000,
    };

    let rotations = MediaPipePoseAdapter::landmarks_to_bone_rotations(&landmarks);

    // Should get rotations for: leftUpperArm, leftLowerArm, rightUpperArm, rightLowerArm, chest
    assert_eq!(rotations.len(), 5);

    // Check that we have the expected bone names
    let bone_names: Vec<&str> = rotations.iter().map(|r| r.bone_name.as_str()).collect();
    assert!(bone_names.contains(&"leftUpperArm"));
    assert!(bone_names.contains(&"leftLowerArm"));
    assert!(bone_names.contains(&"rightUpperArm"));
    assert!(bone_names.contains(&"rightLowerArm"));
    assert!(bone_names.contains(&"chest"));
}

#[test]
fn test_adapter_confidence_is_visibility_mean() {
    let mut landmarks = vec![
        PoseWorldLandmark {
            x: 0,
            y: 0,
            z: 0,
            visibility: 0,
        };
        33
    ];
    landmarks[PoseLandmarkIndex::LeftShoulder.index()] = PoseWorldLandmark {
        x: -200_000,
        y: 500_000,
        z: 0,
        visibility: 800_000,
    };
    landmarks[PoseLandmarkIndex::LeftElbow.index()] = PoseWorldLandmark {
        x: -400_000,
        y: 300_000,
        z: 0,
        visibility: 600_000,
    };

    let rotations = MediaPipePoseAdapter::landmarks_to_bone_rotations(&landmarks);
    assert_eq!(rotations.len(), 1);
    assert_eq!(rotations[0].bone_name, "leftUpperArm");
    assert_eq!(rotations[0].confidence, 700_000);
}

#[test]
fn test_adapter_visibility_gate_is_strict() {
    // One landmark just below the 0.5 gate drops its joints.
    let mut landmarks = vec![
        PoseWorldLandmark {
            x: 0,
            y: 0,
            z: 0,
            visibility: 0,
        };
        33
    ];
    landmarks[PoseLandmarkIndex::LeftShoulder.index()] = PoseWorldLandmark {
        x: -200_000,
        y: 500_000,
        z: 0,
        visibility: 499_999,
    };
    landmarks[PoseLandmarkIndex::LeftElbow.index()] = PoseWorldLandmark {
        x: -400_000,
        y: 300_000,
        z: 0,
        visibility: 900_000,
    };

    let rotations = MediaPipePoseAdapter::landmarks_to_bone_rotations(&landmarks);
    assert_eq!(rotations.len(), 0);
}

#[test]
fn test_adapter_arm_rotation_points_along_bone() {
    // The left upper arm runs from the shoulder down-left; applying the
    // emitted rotation to the rest direction must give that direction.
    let mut landmarks = vec![
        PoseWorldLandmark {
            x: 0,
            y: 0,
            z: 0,
            visibility: 0,
        };
        33
    ];
    landmarks[PoseLandmarkIndex::LeftShoulder.index()] = PoseWorldLandmark {
        x: -200_000,
        y: 500_000,
        z: 0,
        visibility: 900_000,
    };
    landmarks[PoseLandmarkIndex::LeftElbow.index()] = PoseWorldLandmark {
        x: -400_000,
        y: 300_000,
        z: 0,
        visibility: 900_000,
    };

    let rotations = MediaPipePoseAdapter::landmarks_to_bone_rotations(&landmarks);
    assert_eq!(rotations.len(), 1);

    let observed = Vec3::new(-0.2, -0.2, 0.0).normalize();
    let rotated = to_glam(&rotations[0].rotation) * Vec3::new(-1.0, 0.0, 0.0);
    assert!((rotated - observed).length() < 0.001);
}

#[test]
fn test_adapter_repeated_calls_identical() {
    let mut landmarks = vec![
        PoseWorldLandmark {
            x: 0,
            y: 0,
            z: 0,
            visibility: 0,
        };
        33
    ];
    landmarks[PoseLandmarkIndex::LeftShoulder.index()] = PoseWorldLandmark {
        x: -200_000,
        y: 500_000,
        z: 0,
        visibility: 800_000,
    };
    landmarks[PoseLandmarkIndex::LeftElbow.index()] = PoseWorldLandmark {
        x: -400_000,
        y: 300_000,
        z: 0,
        visibility: 600_000,
    };

    let first = MediaPipePoseAdapter::landmarks_to_bone_rotations(&landmarks);
    let second = MediaPipePoseAdapter::landmarks_to_bone_rotations(&landmarks);

    assert_eq!(first.len(), second.len());
    for (a, b) in first.iter().zip(second.iter()) {
        assert_eq!(a.bone_name, b.bone_name);
        assert_eq!(a.rotation, b.rotation);
        assert_eq!(a.confidence, b.confidence);
    }
}

#[test]
fn test_landmark_to_vec3() {
    let landmark = PoseWorldLandmark {
        x: 1_000,
        y: -2_000,
        z: 3_000,
        visibility: 500_000,
    };
    let v: Vec3Fp = landmark.to_vec3();
    assert_eq!(v.x, 1_000);
    assert_eq!(v.y, -2_000);
    assert_eq!(v.z, 3_000);
}
