//! Mapping of body landmarks to humanoid bone rotations.
//!
//! A fixed-length, ordered sequence of 33 labeled 3D landmarks is turned
//! into rotations for a small set of upper-body bones.  Each joint is
//! gated by the visibility of its two landmarks, its observed direction is
//! compared with a canonical rest-pose direction, and the minimal rotation
//! between the two is emitted together with a confidence score.

use vstd::prelude::*;
use crate::fixed::{UNIT, clamp_unit, clamp_unit_spec, sqrt_floor, isqrt, mul_div, mul_div_spec};
use crate::vec3::{
    Vec3View, Vec3Fp, QuatView, QuatFp, in_bounds, dot_raw, cross_raw, norm_raw, quat_identity,
    dot, cross, norm, try_normalize, normalize_spec, lemma_component_le_norm, DIR_LIMIT,
};

verus! {

/// Length of a complete landmark sequence; shorter input carries no pose.
pub const POSE_LANDMARK_COUNT: usize = 33;

/// A joint is dropped when either of its landmarks is seen with less
/// visibility than this (0.5 in units).
pub const VISIBILITY_GATE: i64 = 500_000;

/// Largest landmark coordinate magnitude the mapper accepts: 100 meters
/// in ticks, far beyond any body-scale tracking volume, but small enough
/// that coordinate differences stay exact in 64 bits.
pub const COORD_LIMIT: i64 = 100_000_000;

/// Dot products above this raw threshold (0.9999 in units, times
/// `UNIT * UNIT`) count as parallel; below its negation, as anti-parallel.
pub const PARALLEL_DOT_RAW: i64 = 999_900 * 1_000_000;

/// A rest direction whose first component exceeds this magnitude (0.9 in
/// units) is nearly aligned with the X axis, so the perpendicular axis
/// for a half-turn is taken along Y instead of X.
pub const AXIS_PICK_TICKS: i64 = 900_000;

/// The quaternion of minimal rotation from `a` onto `b`, in exact
/// fixed-point arithmetic.
///
/// - nearly parallel inputs give the identity;
/// - nearly anti-parallel inputs give a half-turn about a fixed axis
///   perpendicular to `a`;
/// - otherwise the rotation is about the normalized cross product, with
///   half-angle sine and cosine derived from the dot product; should the
///   rounded cross product still vanish, the identity is returned.
pub open spec fn rotation_spec(a: Vec3View, b: Vec3View) -> QuatView {
    let d = dot_raw(a, b);
    if d > PARALLEL_DOT_RAW as int {
        quat_identity()
    } else if d < -(PARALLEL_DOT_RAW as int) {
        if a.x > AXIS_PICK_TICKS as int || a.x < -(AXIS_PICK_TICKS as int) {
            QuatView { x: 0, y: UNIT as int, z: 0, w: 0 }
        } else {
            QuatView { x: UNIT as int, y: 0, z: 0, w: 0 }
        }
    } else {
        let c = cross_raw(a, b);
        let n = norm_raw(c);
        if n == 0 {
            quat_identity()
        } else {
            let half_cos = sqrt_floor(((UNIT as int) * (UNIT as int) + d) / 2);
            let half_sin = sqrt_floor(((UNIT as int) * (UNIT as int) - d) / 2);
            QuatView {
                x: mul_div_spec(c.x, half_sin, n),
                y: mul_div_spec(c.y, half_sin, n),
                z: mul_div_spec(c.z, half_sin, n),
                w: half_cos,
            }
        }
    }
}

/// Square root in ticks of a raw (twice-scaled) quantity.
fn sqrt_of_raw(t: i64) -> (r: i64)
    requires
        0 <= t <= 2_000_000_000_000,
    ensures
        r as int == sqrt_floor(t as int),
        0 <= r <= 2_000_000,
{
    let r128: u128 = isqrt(t as u128);
    proof {
        assert(r128 as int <= 2_000_000) by (nonlinear_arith)
            requires
                r128 as int * r128 as int <= t as int,
                0 <= r128 as int,
                t as int <= 2_000_000_000_000,
        ;
    }
    r128 as i64
}

/// Minimal rotation taking the direction `from` onto the direction `to`.
///
/// Both inputs are expected to be unit direction vectors in ticks; the
/// result is exactly [`rotation_spec`] of their values.
pub fn rotation_between_vectors(from: &Vec3Fp, to: &Vec3Fp) -> (q: QuatFp)
    requires
        in_bounds(from@, DIR_LIMIT as int),
        in_bounds(to@, DIR_LIMIT as int),
    ensures
        q@ == rotation_spec(from@, to@),
{
    let d = dot(from, to);
    if d > PARALLEL_DOT_RAW {
        QuatFp::identity()
    } else if d < -PARALLEL_DOT_RAW {
        if from.x > AXIS_PICK_TICKS || from.x < -AXIS_PICK_TICKS {
            QuatFp { x: 0, y: UNIT, z: 0, w: 0 }
        } else {
            QuatFp { x: UNIT, y: 0, z: 0, w: 0 }
        }
    } else {
        let c = cross(from, to);
        let n = norm(&c);
        if n == 0 {
            QuatFp::identity()
        } else {
            proof {
                assert((DIR_LIMIT as int) * (DIR_LIMIT as int) == 4_000_000_000_000int)
                    by (nonlinear_arith);
                lemma_component_le_norm(c@, n as int);
            }
            let half_cos = sqrt_of_raw((UNIT * UNIT + d) / 2);
            let half_sin = sqrt_of_raw((UNIT * UNIT - d) / 2);
            let x = mul_div(c.x, half_sin, n);
            let y = mul_div(c.y, half_sin, n);
            let z = mul_div(c.z, half_sin, n);
            QuatFp { x, y, z, w: half_cos }
        }
    }
}

/// Semantic label of each slot in the 33-entry landmark sequence.
#[derive(Clone, Copy, Debug, PartialEq, Eq, Structural)]
pub enum PoseLandmarkIndex {
    Nose,
    LeftEyeInner,
    LeftEye,
    LeftEyeOuter,
    RightEyeInner,
    RightEye,
    RightEyeOuter,
    LeftEar,
    RightEar,
    MouthLeft,
    MouthRight,
    LeftShoulder,
    RightShoulder,
    LeftElbow,
    RightElbow,
    LeftWrist,
    RightWrist,
    LeftPinky,
    RightPinky,
    LeftIndex,
    RightIndex,
    LeftThumb,
    RightThumb,
    LeftHip,
    RightHip,
    LeftKnee,
    RightKnee,
    LeftAnkle,
    RightAnkle,
    LeftHeel,
    RightHeel,
    LeftFootIndex,
    RightFootIndex,
}

impl PoseLandmarkIndex {
    /// Position of this label in the landmark sequence.
    pub open spec fn index_spec(self) -> int {
        match self {
            PoseLandmarkIndex::Nose => 0,
            PoseLandmarkIndex::LeftEyeInner => 1,
            PoseLandmarkIndex::LeftEye => 2,
            PoseLandmarkIndex::LeftEyeOuter => 3,
            PoseLandmarkIndex::RightEyeInner => 4,
            PoseLandmarkIndex::RightEye => 5,
            PoseLandmarkIndex::RightEyeOuter => 6,
            PoseLandmarkIndex::LeftEar => 7,
            PoseLandmarkIndex::RightEar => 8,
            PoseLandmarkIndex::MouthLeft => 9,
            PoseLandmarkIndex::MouthRight => 10,
            PoseLandmarkIndex::LeftShoulder => 11,
            PoseLandmarkIndex::RightShoulder => 12,
            PoseLandmarkIndex::LeftElbow => 13,
            PoseLandmarkIndex::RightElbow => 14,
            PoseLandmarkIndex::LeftWrist => 15,
            PoseLandmarkIndex::RightWrist => 16,
            PoseLandmarkIndex::LeftPinky => 17,
            PoseLandmarkIndex::RightPinky => 18,
            PoseLandmarkIndex::LeftIndex => 19,
            PoseLandmarkIndex::RightIndex => 20,
            PoseLandmarkIndex::LeftThumb => 21,
            PoseLandmarkIndex::RightThumb => 22,
            PoseLandmarkIndex::LeftHip => 23,
            PoseLandmarkIndex::RightHip => 24,
            PoseLandmarkIndex::LeftKnee => 25,
            PoseLandmarkIndex::RightKnee => 26,
            PoseLandmarkIndex::LeftAnkle => 27,
            PoseLandmarkIndex::RightAnkle => 28,
            PoseLandmarkIndex::LeftHeel => 29,
            PoseLandmarkIndex::RightHeel => 30,
            PoseLandmarkIndex::LeftFootIndex => 31,
            PoseLandmarkIndex::RightFootIndex => 32,
        }
    }

    /// Position of this label in the landmark sequence.
    pub fn index(self) -> (i: usize)
        ensures
            i as int == self.index_spec(),
            i < POSE_LANDMARK_COUNT,
    {
        match self {
            PoseLandmarkIndex::Nose => 0,
            PoseLandmarkIndex::LeftEyeInner => 1,
            PoseLandmarkIndex::LeftEye => 2,
            PoseLandmarkIndex::LeftEyeOuter => 3,
            PoseLandmarkIndex::RightEyeInner => 4,
            PoseLandmarkIndex::RightEye => 5,
            PoseLandmarkIndex::RightEyeOuter => 6,
            PoseLandmarkIndex::LeftEar => 7,
            PoseLandmarkIndex::RightEar => 8,
            PoseLandmarkIndex::MouthLeft => 9,
            PoseLandmarkIndex::MouthRight => 10,
            PoseLandmarkIndex::LeftShoulder => 11,
            PoseLandmarkIndex::RightShoulder => 12,
            PoseLandmarkIndex::LeftElbow => 13,
            PoseLandmarkIndex::RightElbow => 14,
            PoseLandmarkIndex::LeftWrist => 15,
            PoseLandmarkIndex::RightWrist => 16,
            PoseLandmarkIndex::LeftPinky => 17,
            PoseLandmarkIndex::RightPinky => 18,
            PoseLandmarkIndex::LeftIndex => 19,
            PoseLandmarkIndex::RightIndex => 20,
            PoseLandmarkIndex::LeftThumb => 21,
            PoseLandmarkIndex::RightThumb => 22,
            PoseLandmarkIndex::LeftHip => 23,
            PoseLandmarkIndex::RightHip => 24,
            PoseLandmarkIndex::LeftKnee => 25,
            PoseLandmarkIndex::RightKnee => 26,
            PoseLandmarkIndex::LeftAnkle => 27,
            PoseLandmarkIndex::RightAnkle => 28,
            PoseLandmarkIndex::LeftHeel => 29,
            PoseLandmarkIndex::RightHeel => 30,
            PoseLandmarkIndex::LeftFootIndex => 31,
            PoseLandmarkIndex::RightFootIndex => 32,
        }
    }
}

/// Mathematical value of one landmark.
pub ghost struct LandmarkView {
    pub x: int,
    pub y: int,
    pub z: int,
    pub visibility: int,
}

/// A tracked 3D point in world space: coordinates in ticks of a meter,
/// visibility in ticks of full confidence.
#[derive(Clone, Copy, Debug, PartialEq, Eq, Structural)]
pub struct PoseWorldLandmark {
    pub x: i64,
    pub y: i64,
    pub z: i64,
    pub visibility: i64,
}

impl View for PoseWorldLandmark {
    type V = LandmarkView;

    open spec fn view(&self) -> LandmarkView {
        LandmarkView {
            x: self.x as int,
            y: self.y as int,
            z: self.z as int,
            visibility: self.visibility as int,
        }
    }
}

impl DeepView for PoseWorldLandmark {
    type V = LandmarkView;

    open spec fn deep_view(&self) -> LandmarkView {
        self.view()
    }
}

/// A landmark within the tracking volume, with a visibility inside the
/// unit interval.
pub open spec fn landmark_wf(l: LandmarkView) -> bool {
    &&& -(COORD_LIMIT as int) <= l.x <= COORD_LIMIT as int
    &&& -(COORD_LIMIT as int) <= l.y <= COORD_LIMIT as int
    &&& -(COORD_LIMIT as int) <= l.z <= COORD_LIMIT as int
    &&& 0 <= l.visibility <= UNIT as int
}

/// The position of a landmark, without its visibility.
pub open spec fn landmark_position(l: LandmarkView) -> Vec3View {
    Vec3View { x: l.x, y: l.y, z: l.z }
}

impl PoseWorldLandmark {
    /// The position of this landmark as a vector.
    pub fn to_vec3(&self) -> (v: Vec3Fp)
        ensures
            v@ == landmark_position(self@),
    {
        Vec3Fp { x: self.x, y: self.y, z: self.z }
    }
}

/// Mathematical value of one emitted bone rotation.
pub ghost struct BoneRotationView {
    pub bone_name: Seq<char>,
    pub rotation: QuatView,
    pub confidence: int,
}

/// A rotation to apply to one named humanoid bone, with the confidence
/// of the observation behind it.
#[derive(Clone, Debug)]
pub struct VrmBoneRotation {
    /// Canonical humanoid bone name, e.g. "leftUpperArm".
    pub bone_name: String,
    /// Rotation quaternion to apply to the bone.
    pub rotation: QuatFp,
    /// Confidence in ticks, clamped to the unit interval.
    pub confidence: i64,
}

impl View for VrmBoneRotation {
    type V = BoneRotationView;

    open spec fn view(&self) -> BoneRotationView {
        BoneRotationView {
            bone_name: self.bone_name@,
            rotation: self.rotation@,
            confidence: self.confidence as int,
        }
    }
}

impl DeepView for VrmBoneRotation {
    type V = BoneRotationView;

    open spec fn deep_view(&self) -> BoneRotationView {
        self.view()
    }
}

impl VrmBoneRotation {
    /// Pack a bone name, rotation and confidence, clamping the
    /// confidence to the unit interval.
    pub fn new(bone_name: &str, rotation: QuatFp, confidence: i64) -> (r: VrmBoneRotation)
        ensures
            r@.bone_name == bone_name@,
            r@.rotation == rotation@,
            r@.confidence == clamp_unit_spec(confidence as int),
    {
        VrmBoneRotation {
            bone_name: bone_name.to_owned(),
            rotation,
            confidence: clamp_unit(confidence),
        }
    }
}

/// What one joint contributes: nothing when either landmark is below the
/// visibility gate or the two landmarks coincide; otherwise the minimal
/// rotation from the bone's rest direction onto the observed direction,
/// at the mean of the two visibilities.
pub open spec fn joint_rotation_spec(
    lms: Seq<LandmarkView>,
    prox: PoseLandmarkIndex,
    dist: PoseLandmarkIndex,
    rest: Vec3View,
    name: Seq<char>,
) -> Option<BoneRotationView> {
    let a = lms[prox.index_spec()];
    let b = lms[dist.index_spec()];
    if a.visibility < VISIBILITY_GATE as int || b.visibility < VISIBILITY_GATE as int {
        None
    } else {
        let diff = Vec3View { x: b.x - a.x, y: b.y - a.y, z: b.z - a.z };
        match normalize_spec(diff) {
            None => None,
            Some(dir) => Some(
                BoneRotationView {
                    bone_name: name,
                    rotation: rotation_spec(rest, dir),
                    confidence: clamp_unit_spec((a.visibility + b.visibility) / 2),
                },
            ),
        }
    }
}

/// One joint of the five-step pattern: fetch the two landmarks, gate on
/// visibility, take the bone direction, and rotate the rest direction
/// onto it.
fn joint_rotation(
    landmarks: &Vec<PoseWorldLandmark>,
    prox: PoseLandmarkIndex,
    dist: PoseLandmarkIndex,
    rest: Vec3Fp,
    bone_name: &str,
) -> (r: Option<VrmBoneRotation>)
    requires
        landmarks@.len() >= POSE_LANDMARK_COUNT,
        forall|i: int|
            0 <= i < landmarks@.len() ==> landmark_wf(#[trigger] landmarks.deep_view()[i]),
        in_bounds(rest@, DIR_LIMIT as int),
    ensures
        r.deep_view() == joint_rotation_spec(
            landmarks.deep_view(),
            prox,
            dist,
            rest@,
            bone_name@,
        ),
{
    let a = landmarks[prox.index()];
    let b = landmarks[dist.index()];
    proof {
        assert(landmarks.deep_view()[prox.index_spec()] == a@);
        assert(landmarks.deep_view()[dist.index_spec()] == b@);
    }
    if a.visibility < VISIBILITY_GATE || b.visibility < VISIBILITY_GATE {
        return None;
    }
    let diff = Vec3Fp { x: b.x - a.x, y: b.y - a.y, z: b.z - a.z };
    match try_normalize(&diff) {
        None => None,
        Some(dir) => {
            let q = rotation_between_vectors(&rest, &dir);
            let confidence = (a.visibility + b.visibility) / 2;
            Some(VrmBoneRotation::new(bone_name, q, confidence))
        },
    }
}

/// Rest direction of the left arm bones in the canonical T-pose: -X.
pub open spec fn rest_left_arm() -> Vec3View {
    Vec3View { x: -(UNIT as int), y: 0, z: 0 }
}

/// Rest direction of the right arm bones in the canonical T-pose: +X.
pub open spec fn rest_right_arm() -> Vec3View {
    Vec3View { x: UNIT as int, y: 0, z: 0 }
}

/// Rest direction of the shoulder line, left to right: +X.
pub open spec fn rest_shoulder_line() -> Vec3View {
    Vec3View { x: UNIT as int, y: 0, z: 0 }
}

/// Left upper arm: shoulder toward elbow.
pub open spec fn left_upper_arm_spec(lms: Seq<LandmarkView>) -> Option<BoneRotationView> {
    joint_rotation_spec(
        lms,
        PoseLandmarkIndex::LeftShoulder,
        PoseLandmarkIndex::LeftElbow,
        rest_left_arm(),
        "leftUpperArm"@,
    )
}

/// Left lower arm: elbow toward wrist.
pub open spec fn left_lower_arm_spec(lms: Seq<LandmarkView>) -> Option<BoneRotationView> {
    joint_rotation_spec(
        lms,
        PoseLandmarkIndex::LeftElbow,
        PoseLandmarkIndex::LeftWrist,
        rest_left_arm(),
        "leftLowerArm"@,
    )
}

/// Right upper arm: shoulder toward elbow.
pub open spec fn right_upper_arm_spec(lms: Seq<LandmarkView>) -> Option<BoneRotationView> {
    joint_rotation_spec(
        lms,
        PoseLandmarkIndex::RightShoulder,
        PoseLandmarkIndex::RightElbow,
        rest_right_arm(),
        "rightUpperArm"@,
    )
}

/// Right lower arm: elbow toward wrist.
pub open spec fn right_lower_arm_spec(lms: Seq<LandmarkView>) -> Option<BoneRotationView> {
    joint_rotation_spec(
        lms,
        PoseLandmarkIndex::RightElbow,
        PoseLandmarkIndex::RightWrist,
        rest_right_arm(),
        "rightLowerArm"@,
    )
}

/// Chest: the shoulder line, left shoulder toward right shoulder.
pub open spec fn chest_spec(lms: Seq<LandmarkView>) -> Option<BoneRotationView> {
    joint_rotation_spec(
        lms,
        PoseLandmarkIndex::LeftShoulder,
        PoseLandmarkIndex::RightShoulder,
        rest_shoulder_line(),
        "chest"@,
    )
}

/// A present joint contributes one entry, an absent one none.
pub open spec fn option_as_seq<A>(o: Option<A>) -> Seq<A> {
    match o {
        Some(a) => seq![a],
        None => Seq::empty(),
    }
}

/// The whole mapping: an incomplete landmark sequence yields nothing;
/// a complete one yields the five tracked joints in a fixed order, each
/// present or absent on its own.
pub open spec fn bone_rotations_spec(lms: Seq<LandmarkView>) -> Seq<BoneRotationView> {
    if lms.len() < POSE_LANDMARK_COUNT as int {
        Seq::empty()
    } else {
        option_as_seq(left_upper_arm_spec(lms)) + option_as_seq(left_lower_arm_spec(lms))
            + option_as_seq(right_upper_arm_spec(lms)) + option_as_seq(right_lower_arm_spec(lms))
            + option_as_seq(chest_spec(lms))
    }
}

/// A complete landmark sequence whose entries all sit inside the
/// tracking volume with unit-interval visibilities.
pub open spec fn landmarks_wf(lms: Seq<LandmarkView>) -> bool {
    forall|i: int| 0 <= i < lms.len() ==> landmark_wf(#[trigger] lms[i])
}

/// An incomplete landmark sequence never yields a rotation, whatever it
/// holds.
pub proof fn lemma_short_sequence_yields_nothing(lms: Seq<LandmarkView>)
    requires
        lms.len() < POSE_LANDMARK_COUNT as int,
    ensures
        bone_rotations_spec(lms) == Seq::<BoneRotationView>::empty(),
{
}

/// Landmarks that are all reported invisible yield no rotation at all.
pub proof fn lemma_invisible_landmarks_yield_nothing(lms: Seq<LandmarkView>)
    requires
        forall|i: int| 0 <= i < lms.len() ==> #[trigger] lms[i].visibility == 0,
    ensures
        bone_rotations_spec(lms) == Seq::<BoneRotationView>::empty(),
{
    if lms.len() >= POSE_LANDMARK_COUNT as int {
        assert(lms[11].visibility == 0);
        assert(lms[12].visibility == 0);
        assert(lms[13].visibility == 0);
        assert(lms[14].visibility == 0);
        assert(lms[15].visibility == 0);
        assert(lms[16].visibility == 0);
        assert(bone_rotations_spec(lms) =~= Seq::<BoneRotationView>::empty());
    }
}

/// Observing a bone exactly along its rest direction rotates nothing:
/// the primitive returns the identity whenever its two inputs coincide.
pub proof fn lemma_rotation_onto_itself_is_identity(v: Vec3View)
    ensures
        rotation_spec(v, v) == quat_identity(),
{
    let d = dot_raw(v, v);
    crate::vec3::lemma_self_dot_nonneg(v);
    if d <= PARALLEL_DOT_RAW as int {
        let c = cross_raw(v, v);
        assert(v.y * v.z - v.z * v.y == 0 && v.z * v.x - v.x * v.z == 0 && v.x * v.y - v.y * v.x
            == 0) by (nonlinear_arith);
        assert(c.x == 0 && c.y == 0 && c.z == 0);
        assert(dot_raw(c, c) == 0);
        crate::fixed::lemma_sqrt_floor_of_witness(0, 0);
        assert(norm_raw(c) == 0);
    }
}

/// Every emitted confidence lies in the unit interval.
pub proof fn lemma_bone_confidences_clamped(lms: Seq<LandmarkView>)
    ensures
        forall|i: int|
            0 <= i < bone_rotations_spec(lms).len() ==> 0 <= #[trigger] bone_rotations_spec(
                lms,
            )[i].confidence <= UNIT as int,
{
    let s = bone_rotations_spec(lms);
    if lms.len() >= POSE_LANDMARK_COUNT as int {
        let s1 = option_as_seq(left_upper_arm_spec(lms));
        let s2 = option_as_seq(left_lower_arm_spec(lms));
        let s3 = option_as_seq(right_upper_arm_spec(lms));
        let s4 = option_as_seq(right_lower_arm_spec(lms));
        let s5 = option_as_seq(chest_spec(lms));
        assert forall|i: int| 0 <= i < s.len() implies 0 <= #[trigger] s[i].confidence
            <= UNIT as int by {
            assert(s == s1 + s2 + s3 + s4 + s5);
            let e = s[i];
            assert(s1.len() <= 1 && s2.len() <= 1 && s3.len() <= 1 && s4.len() <= 1 && s5.len()
                <= 1);
            if i < s1.len() {
                assert(e == s1[0]);
            } else if i < s1.len() + s2.len() {
                assert(e == s2[0]);
            } else if i < s1.len() + s2.len() + s3.len() {
                assert(e == s3[0]);
            } else if i < s1.len() + s2.len() + s3.len() + s4.len() {
                assert(e == s4[0]);
            } else {
                assert(e == s5[0]);
            }
        }
    }
}

/// Whether `name` is one of the canonical names of the tracked bones.
pub open spec fn canonical_bone_name(name: Seq<char>) -> bool {
    ||| name == "leftUpperArm"@
    ||| name == "leftLowerArm"@
    ||| name == "rightUpperArm"@
    ||| name == "rightLowerArm"@
    ||| name == "chest"@
}

/// Emitted bone names are always drawn from the fixed canonical
/// vocabulary, never synthesized.
pub proof fn lemma_bone_names_canonical(lms: Seq<LandmarkView>)
    ensures
        forall|i: int|
            0 <= i < bone_rotations_spec(lms).len() ==> canonical_bone_name(
                #[trigger] bone_rotations_spec(lms)[i].bone_name,
            ),
{
    let s = bone_rotations_spec(lms);
    if lms.len() >= POSE_LANDMARK_COUNT as int {
        let s1 = option_as_seq(left_upper_arm_spec(lms));
        let s2 = option_as_seq(left_lower_arm_spec(lms));
        let s3 = option_as_seq(right_upper_arm_spec(lms));
        let s4 = option_as_seq(right_lower_arm_spec(lms));
        let s5 = option_as_seq(chest_spec(lms));
        assert forall|i: int| 0 <= i < s.len() implies canonical_bone_name(
            #[trigger] s[i].bone_name,
        ) by {
            assert(s == s1 + s2 + s3 + s4 + s5);
            let e = s[i];
            assert(s1.len() <= 1 && s2.len() <= 1 && s3.len() <= 1 && s4.len() <= 1 && s5.len()
                <= 1);
            if i < s1.len() {
                assert(e == s1[0]);
            } else if i < s1.len() + s2.len() {
                assert(e == s2[0]);
            } else if i < s1.len() + s2.len() + s3.len() {
                assert(e == s3[0]);
            } else if i < s1.len() + s2.len() + s3.len() + s4.len() {
                assert(e == s4[0]);
            } else {
                assert(e == s5[0]);
            }
        }
    }
}

/// Converter from tracked pose landmarks to humanoid bone rotations.
pub struct MediaPipePoseAdapter;

impl MediaPipePoseAdapter {
    /// Map a frame of pose world landmarks to bone rotations for the
    /// tracked upper-body bones.
    ///
    /// The result is exactly [`bone_rotations_spec`] of the input: empty
    /// when fewer than 33 landmarks arrive, otherwise up to five bone
    /// rotations, each gated by the visibility of its two landmarks.
    pub fn landmarks_to_bone_rotations(landmarks: &Vec<PoseWorldLandmark>) -> (rotations: Vec<
        VrmBoneRotation,
    >)
        requires
            landmarks@.len() >= POSE_LANDMARK_COUNT ==> landmarks_wf(landmarks.deep_view()),
        ensures
            rotations.deep_view() == bone_rotations_spec(landmarks.deep_view()),
    {
        let mut rotations: Vec<VrmBoneRotation> = Vec::new();
        if landmarks.len() < POSE_LANDMARK_COUNT {
            assert(rotations.deep_view() =~= bone_rotations_spec(landmarks.deep_view()));
            return rotations;
        }
        let ghost lms = landmarks.deep_view();

        let r1 = joint_rotation(
            landmarks,
            PoseLandmarkIndex::LeftShoulder,
            PoseLandmarkIndex::LeftElbow,
            Vec3Fp { x: -UNIT, y: 0, z: 0 },
            "leftUpperArm",
        );
        let ghost g1 = option_as_seq(r1.deep_view());
        if let Some(rotation) = r1 {
            rotations.push(rotation);
        }
        assert(rotations.deep_view() =~= g1);

        let r2 = joint_rotation(
            landmarks,
            PoseLandmarkIndex::LeftElbow,
            PoseLandmarkIndex::LeftWrist,
            Vec3Fp { x: -UNIT, y: 0, z: 0 },
            "leftLowerArm",
        );
        let ghost g2 = option_as_seq(r2.deep_view());
        if let Some(rotation) = r2 {
            rotations.push(rotation);
        }
        assert(rotations.deep_view() =~= g1 + g2);

        let r3 = joint_rotation(
            landmarks,
            PoseLandmarkIndex::RightShoulder,
            PoseLandmarkIndex::RightElbow,
            Vec3Fp { x: UNIT, y: 0, z: 0 },
            "rightUpperArm",
        );
        let ghost g3 = option_as_seq(r3.deep_view());
        if let Some(rotation) = r3 {
            rotations.push(rotation);
        }
        assert(rotations.deep_view() =~= g1 + g2 + g3);

        let r4 = joint_rotation(
            landmarks,
            PoseLandmarkIndex::RightElbow,
            PoseLandmarkIndex::RightWrist,
            Vec3Fp { x: UNIT, y: 0, z: 0 },
            "rightLowerArm",
        );
        let ghost g4 = option_as_seq(r4.deep_view());
        if let Some(rotation) = r4 {
            rotations.push(rotation);
        }
        assert(rotations.deep_view() =~= g1 + g2 + g3 + g4);

        let r5 = joint_rotation(
            landmarks,
            PoseLandmarkIndex::LeftShoulder,
            PoseLandmarkIndex::RightShoulder,
            Vec3Fp { x: UNIT, y: 0, z: 0 },
            "chest",
        );
        let ghost g5 = option_as_seq(r5.deep_view());
        if let Some(rotation) = r5 {
            rotations.push(rotation);
        }
        assert(rotations.deep_view() =~= g1 + g2 + g3 + g4 + g5);

        assert(g1 == option_as_seq(left_upper_arm_spec(lms)));
        assert(g2 == option_as_seq(left_lower_arm_spec(lms)));
        assert(g3 == option_as_seq(right_upper_arm_spec(lms)));
        assert(g4 == option_as_seq(right_lower_arm_spec(lms)));
        assert(g5 == option_as_seq(chest_spec(lms)));
        assert(rotations.deep_view() =~= bone_rotations_spec(lms));
        rotations
    }
}

} // verus!
