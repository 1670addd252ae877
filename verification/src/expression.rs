//! Mapping of blendshape coefficients to named expression weights.
//!
//! A frame of named blendshape coefficients is converted into a list of
//! expression presets with weights, by a fixed rule table of thresholds
//! and two-coefficient means.  A coefficient missing from the frame
//! counts as zero; every emitted weight is clamped to the unit interval.

use vstd::prelude::*;
use crate::fixed::{UNIT, clamp_unit, clamp_unit_spec};

verus! {

/// Largest coefficient magnitude a frame holds: one million units, far
/// outside the nominal unit interval, but small enough that the sum of
/// two coefficients stays exact in 64 bits.
pub const COEFF_LIMIT: i64 = 1_000_000_000_000;

/// An emotion is emitted only above this mean coefficient (0.3 in units).
pub const EMOTION_GATE: i64 = 300_000;

/// A lip-sync shape is emitted only above this coefficient (0.5 in units).
pub const LIP_GATE: i64 = 500_000;

/// Canonical expression preset of the avatar interchange specification.
#[derive(Clone, Copy, Debug, PartialEq, Eq, Hash, Structural)]
pub enum VrmExpressionPreset {
    Happy,
    Angry,
    Sad,
    Relaxed,
    Surprised,
    Aa,
    Ih,
    Ou,
    Ee,
    Oh,
    Blink,
    BlinkLeft,
    BlinkRight,
    LookUp,
    LookDown,
    LookLeft,
    LookRight,
    Neutral,
}

impl VrmExpressionPreset {
    /// The canonical name of this preset.
    pub open spec fn as_str_spec(self) -> Seq<char> {
        match self {
            VrmExpressionPreset::Happy => "happy"@,
            VrmExpressionPreset::Angry => "angry"@,
            VrmExpressionPreset::Sad => "sad"@,
            VrmExpressionPreset::Relaxed => "relaxed"@,
            VrmExpressionPreset::Surprised => "surprised"@,
            VrmExpressionPreset::Aa => "aa"@,
            VrmExpressionPreset::Ih => "ih"@,
            VrmExpressionPreset::Ou => "ou"@,
            VrmExpressionPreset::Ee => "ee"@,
            VrmExpressionPreset::Oh => "oh"@,
            VrmExpressionPreset::Blink => "blink"@,
            VrmExpressionPreset::BlinkLeft => "blinkLeft"@,
            VrmExpressionPreset::BlinkRight => "blinkRight"@,
            VrmExpressionPreset::LookUp => "lookUp"@,
            VrmExpressionPreset::LookDown => "lookDown"@,
            VrmExpressionPreset::LookLeft => "lookLeft"@,
            VrmExpressionPreset::LookRight => "lookRight"@,
            VrmExpressionPreset::Neutral => "neutral"@,
        }
    }

    /// The canonical name of this preset.
    pub fn as_str(&self) -> (s: &'static str)
        ensures
            s@ == self.as_str_spec(),
    {
        match self {
            VrmExpressionPreset::Happy => "happy",
            VrmExpressionPreset::Angry => "angry",
            VrmExpressionPreset::Sad => "sad",
            VrmExpressionPreset::Relaxed => "relaxed",
            VrmExpressionPreset::Surprised => "surprised",
            VrmExpressionPreset::Aa => "aa",
            VrmExpressionPreset::Ih => "ih",
            VrmExpressionPreset::Ou => "ou",
            VrmExpressionPreset::Ee => "ee",
            VrmExpressionPreset::Oh => "oh",
            VrmExpressionPreset::Blink => "blink",
            VrmExpressionPreset::BlinkLeft => "blinkLeft",
            VrmExpressionPreset::BlinkRight => "blinkRight",
            VrmExpressionPreset::LookUp => "lookUp",
            VrmExpressionPreset::LookDown => "lookDown",
            VrmExpressionPreset::LookLeft => "lookLeft",
            VrmExpressionPreset::LookRight => "lookRight",
            VrmExpressionPreset::Neutral => "neutral",
        }
    }
}

/// Mathematical value of one emitted expression weight.
pub ghost struct ExpressionView {
    pub preset: VrmExpressionPreset,
    pub weight: int,
}

/// An expression preset with its weight in ticks, clamped to the unit
/// interval.
#[derive(Clone, Debug)]
pub struct VrmExpression {
    pub preset: VrmExpressionPreset,
    pub weight: i64,
}

impl View for VrmExpression {
    type V = ExpressionView;

    open spec fn view(&self) -> ExpressionView {
        ExpressionView { preset: self.preset, weight: self.weight as int }
    }
}

impl DeepView for VrmExpression {
    type V = ExpressionView;

    open spec fn deep_view(&self) -> ExpressionView {
        self.view()
    }
}

impl VrmExpression {
    /// Pack a preset and a weight, clamping the weight to the unit
    /// interval.
    pub fn new(preset: VrmExpressionPreset, weight: i64) -> (r: VrmExpression)
        ensures
            r@.preset == preset,
            r@.weight == clamp_unit_spec(weight as int),
    {
        VrmExpression { preset, weight: clamp_unit(weight) }
    }
}

/// The coefficient a name resolves to: the most recently stored value
/// under that name, or zero when the name was never stored.
pub open spec fn lookup_spec(entries: Seq<(String, i64)>, name: Seq<char>) -> int
    decreases entries.len(),
{
    if entries.len() == 0 {
        0
    } else if entries.last().0@ == name {
        entries.last().1 as int
    } else {
        lookup_spec(entries.drop_last(), name)
    }
}

/// One tracking frame of named blendshape coefficients, in ticks.
///
/// Absence is not an error: a name that was never stored reads as zero.
#[derive(Clone, Debug)]
pub struct BlendshapeFrame {
    entries: Vec<(String, i64)>,
}

impl BlendshapeFrame {
    /// The coefficient stored under `name`, or zero.
    pub closed spec fn coeff(self, name: Seq<char>) -> int {
        lookup_spec(self.entries@, name)
    }

    /// Every stored coefficient is inside the frame's domain.
    pub closed spec fn wf(self) -> bool {
        forall|i: int|
            0 <= i < self.entries@.len() ==> 0 <= (#[trigger] self.entries@[i]).1
                <= COEFF_LIMIT
    }

    /// An empty frame: every name reads as zero.
    pub fn new() -> (frame: BlendshapeFrame)
        ensures
            frame.wf(),
            forall|name: Seq<char>| #[trigger] frame.coeff(name) == 0,
    {
        BlendshapeFrame { entries: Vec::new() }
    }

    /// Store `value` under `name`, replacing what the name read as
    /// before; every other name is unaffected.
    pub fn set(&mut self, name: &str, value: i64)
        requires
            old(self).wf(),
            0 <= value <= COEFF_LIMIT,
        ensures
            final(self).wf(),
            final(self).coeff(name@) == value,
            forall|other: Seq<char>|
                other != name@ ==> #[trigger] final(self).coeff(other) == old(self).coeff(other),
    {
        let ghost before = self.entries@;
        self.entries.push((name.to_owned(), value));
        proof {
            assert(self.entries@.drop_last() =~= before);
            assert forall|other: Seq<char>|
                other != name@ implies #[trigger] self.coeff(other) == lookup_spec(
                before,
                other,
            ) by {
                assert(self.entries@.last().0@ == name@);
            }
        }
    }

    /// Read the coefficient stored under `name`, or zero.
    pub fn coefficient(&self, name: &str) -> (value: i64)
        requires
            self.wf(),
        ensures
            value as int == self.coeff(name@),
            0 <= value <= COEFF_LIMIT,
    {
        let key: String = name.to_owned();
        let mut i: usize = self.entries.len();
        proof {
            assert(self.entries@.take(self.entries@.len() as int) =~= self.entries@);
        }
        while i > 0
            invariant
                key@ == name@,
                i <= self.entries@.len(),
                self.wf(),
                lookup_spec(self.entries@, name@) == lookup_spec(
                    self.entries@.take(i as int),
                    name@,
                ),
            decreases i,
        {
            i = i - 1;
            let entry = &self.entries[i];
            if entry.0 == key {
                proof {
                    assert(self.entries@.take(i as int + 1).last() == self.entries@[i as int]);
                }
                return entry.1;
            }
            proof {
                let t = self.entries@.take(i as int + 1);
                assert(t.last() == self.entries@[i as int]);
                assert(t.drop_last() =~= self.entries@.take(i as int));
            }
        }
        proof {
            assert(self.entries@.take(0) =~= Seq::<(String, i64)>::empty());
        }
        0
    }
}

/// One rule of the table: when its condition holds, the rule contributes
/// its preset at the clamped weight; otherwise nothing.
pub open spec fn emit(preset: VrmExpressionPreset, weight: int, cond: bool) -> Seq<
    ExpressionView,
> {
    if cond {
        seq![ExpressionView { preset, weight: clamp_unit_spec(weight) }]
    } else {
        Seq::empty()
    }
}

/// A rule with a strict threshold: the preset is emitted, at the
/// clamped weight, exactly when the value exceeds its threshold.
pub open spec fn rule(preset: VrmExpressionPreset, value: int, gate: int) -> Seq<
    ExpressionView,
> {
    emit(preset, value, value > gate)
}

/// Mean of the two eyelid-closure coefficients.
pub open spec fn blink_mean(f: BlendshapeFrame) -> int {
    (f.coeff("eyeBlinkLeft"@) + f.coeff("eyeBlinkRight"@)) / 2
}

/// Mean of the two upward-gaze coefficients.
pub open spec fn look_up_mean(f: BlendshapeFrame) -> int {
    (f.coeff("eyeLookUpLeft"@) + f.coeff("eyeLookUpRight"@)) / 2
}

/// Mean of the two downward-gaze coefficients.
pub open spec fn look_down_mean(f: BlendshapeFrame) -> int {
    (f.coeff("eyeLookDownLeft"@) + f.coeff("eyeLookDownRight"@)) / 2
}

/// Mean of the leftward-gaze pair: the left eye turned inward and the
/// right eye turned outward.
pub open spec fn look_left_mean(f: BlendshapeFrame) -> int {
    (f.coeff("eyeLookInLeft"@) + f.coeff("eyeLookOutRight"@)) / 2
}

/// Mean of the rightward-gaze pair: the left eye turned outward and the
/// right eye turned inward.
pub open spec fn look_right_mean(f: BlendshapeFrame) -> int {
    (f.coeff("eyeLookOutLeft"@) + f.coeff("eyeLookInRight"@)) / 2
}

/// Mean of the two smile coefficients.
pub open spec fn smile_mean(f: BlendshapeFrame) -> int {
    (f.coeff("mouthSmileLeft"@) + f.coeff("mouthSmileRight"@)) / 2
}

/// Mean of the two frown coefficients.
pub open spec fn frown_mean(f: BlendshapeFrame) -> int {
    (f.coeff("mouthFrownLeft"@) + f.coeff("mouthFrownRight"@)) / 2
}

/// The fixed rule table over a frame: eyelid closures map to the blinks,
/// paired gaze coefficients to the look directions, smile and frown
/// means to the emotions above their gate, and the mouth shapes to the
/// lip-sync phonemes above theirs, in this order.
pub open spec fn arkit_expressions_spec(f: BlendshapeFrame) -> Seq<ExpressionView> {
    rule(VrmExpressionPreset::BlinkLeft, f.coeff("eyeBlinkLeft"@), 0) + rule(
        VrmExpressionPreset::BlinkRight,
        f.coeff("eyeBlinkRight"@),
        0,
    ) + rule(VrmExpressionPreset::Blink, blink_mean(f), 0) + rule(
        VrmExpressionPreset::LookUp,
        look_up_mean(f),
        0,
    ) + rule(VrmExpressionPreset::LookDown, look_down_mean(f), 0) + rule(
        VrmExpressionPreset::LookLeft,
        look_left_mean(f),
        0,
    ) + rule(VrmExpressionPreset::LookRight, look_right_mean(f), 0) + rule(
        VrmExpressionPreset::Happy,
        smile_mean(f),
        EMOTION_GATE as int,
    ) + rule(VrmExpressionPreset::Sad, frown_mean(f), EMOTION_GATE as int) + rule(
        VrmExpressionPreset::Aa,
        f.coeff("jawOpen"@),
        LIP_GATE as int,
    ) + rule(VrmExpressionPreset::Ou, f.coeff("mouthPucker"@), LIP_GATE as int) + rule(
        VrmExpressionPreset::Oh,
        f.coeff("mouthFunnel"@),
        LIP_GATE as int,
    )
}

/// Every weight in `s` lies in the unit interval.
pub open spec fn weights_clamped(s: Seq<ExpressionView>) -> bool {
    forall|i: int| 0 <= i < s.len() ==> 0 <= #[trigger] s[i].weight <= UNIT as int
}

proof fn lemma_concat_clamped(a: Seq<ExpressionView>, b: Seq<ExpressionView>)
    requires
        weights_clamped(a),
        weights_clamped(b),
    ensures
        weights_clamped(a + b),
{
    assert forall|i: int| 0 <= i < (a + b).len() implies 0 <= #[trigger] (a + b)[i].weight
        <= UNIT as int by {
        if i < a.len() {
            assert((a + b)[i] == a[i]);
        } else {
            assert((a + b)[i] == b[i - a.len()]);
        }
    }
}

/// Capability of converting raw tracker blendshape data into expression
/// weights; whatever the adapter, every weight it emits is clamped to
/// the unit interval.
pub trait BlendshapeToExpression {
    /// Convert one frame of raw tracker blendshapes to VRM expressions.
    fn to_vrm_expressions(&self, raw_blendshapes: &BlendshapeFrame) -> (expressions: Vec<
        VrmExpression,
    >)
        requires
            raw_blendshapes.wf(),
        ensures
            weights_clamped(expressions.deep_view()),
    ;
}

/// Built-in adapter for ARKit-style blendshape names, as produced by
/// perceptual face trackers.
pub struct ArkitToVrmAdapter;

/// Append the contribution of one rule: its preset at the clamped
/// weight when the value exceeds the rule's threshold, else nothing.
fn push_rule(
    expressions: &mut Vec<VrmExpression>,
    preset: VrmExpressionPreset,
    value: i64,
    gate: i64,
)
    ensures
        final(expressions).deep_view() == old(expressions).deep_view() + emit(
            preset,
            value as int,
            value > gate,
        ),
{
    let ghost before = expressions.deep_view();
    if value > gate {
        expressions.push(VrmExpression::new(preset, value));
    }
    proof {
        assert(expressions.deep_view() =~= before + emit(preset, value as int, value > gate));
    }
}

impl ArkitToVrmAdapter {
    /// Map a frame of ARKit-style blendshapes to expression weights.
    ///
    /// The result is exactly [`arkit_expressions_spec`] of the frame.
    #[verifier::rlimit(100)]
    pub fn to_vrm_expressions(&self, raw_blendshapes: &BlendshapeFrame) -> (expressions: Vec<
        VrmExpression,
    >)
        requires
            raw_blendshapes.wf(),
        ensures
            expressions.deep_view() == arkit_expressions_spec(*raw_blendshapes),
    {
        let mut expressions: Vec<VrmExpression> = Vec::new();

        let blink_left = raw_blendshapes.coefficient("eyeBlinkLeft");
        let blink_right = raw_blendshapes.coefficient("eyeBlinkRight");
        let blink = (blink_left + blink_right) / 2;
        let look_up = (raw_blendshapes.coefficient("eyeLookUpLeft")
            + raw_blendshapes.coefficient("eyeLookUpRight")) / 2;
        let look_down = (raw_blendshapes.coefficient("eyeLookDownLeft")
            + raw_blendshapes.coefficient("eyeLookDownRight")) / 2;
        let look_left = (raw_blendshapes.coefficient("eyeLookInLeft")
            + raw_blendshapes.coefficient("eyeLookOutRight")) / 2;
        let look_right = (raw_blendshapes.coefficient("eyeLookOutLeft")
            + raw_blendshapes.coefficient("eyeLookInRight")) / 2;
        let smile = (raw_blendshapes.coefficient("mouthSmileLeft")
            + raw_blendshapes.coefficient("mouthSmileRight")) / 2;
        let frown = (raw_blendshapes.coefficient("mouthFrownLeft")
            + raw_blendshapes.coefficient("mouthFrownRight")) / 2;
        let jaw_open = raw_blendshapes.coefficient("jawOpen");
        let mouth_funnel = raw_blendshapes.coefficient("mouthFunnel");
        let mouth_pucker = raw_blendshapes.coefficient("mouthPucker");

        push_rule(&mut expressions, VrmExpressionPreset::BlinkLeft, blink_left, 0);
        push_rule(&mut expressions, VrmExpressionPreset::BlinkRight, blink_right, 0);
        push_rule(&mut expressions, VrmExpressionPreset::Blink, blink, 0);
        push_rule(&mut expressions, VrmExpressionPreset::LookUp, look_up, 0);
        push_rule(&mut expressions, VrmExpressionPreset::LookDown, look_down, 0);
        push_rule(&mut expressions, VrmExpressionPreset::LookLeft, look_left, 0);
        push_rule(&mut expressions, VrmExpressionPreset::LookRight, look_right, 0);
        push_rule(&mut expressions, VrmExpressionPreset::Happy, smile, EMOTION_GATE);
        push_rule(&mut expressions, VrmExpressionPreset::Sad, frown, EMOTION_GATE);
        push_rule(&mut expressions, VrmExpressionPreset::Aa, jaw_open, LIP_GATE);
        push_rule(&mut expressions, VrmExpressionPreset::Ou, mouth_pucker, LIP_GATE);
        push_rule(&mut expressions, VrmExpressionPreset::Oh, mouth_funnel, LIP_GATE);

        proof {
            assert(expressions.deep_view() =~= arkit_expressions_spec(*raw_blendshapes));
        }
        expressions
    }
}

/// Every weight the table can emit lies in the unit interval, whatever
/// the frame holds.
pub proof fn lemma_expression_weights_clamped(f: BlendshapeFrame)
    ensures
        weights_clamped(arkit_expressions_spec(f)),
{
    let r1 = rule(VrmExpressionPreset::BlinkLeft, f.coeff("eyeBlinkLeft"@), 0);
    let r2 = rule(VrmExpressionPreset::BlinkRight, f.coeff("eyeBlinkRight"@), 0);
    let r3 = rule(VrmExpressionPreset::Blink, blink_mean(f), 0);
    let r4 = rule(VrmExpressionPreset::LookUp, look_up_mean(f), 0);
    let r5 = rule(VrmExpressionPreset::LookDown, look_down_mean(f), 0);
    let r6 = rule(VrmExpressionPreset::LookLeft, look_left_mean(f), 0);
    let r7 = rule(VrmExpressionPreset::LookRight, look_right_mean(f), 0);
    let r8 = rule(VrmExpressionPreset::Happy, smile_mean(f), EMOTION_GATE as int);
    let r9 = rule(VrmExpressionPreset::Sad, frown_mean(f), EMOTION_GATE as int);
    let r10 = rule(VrmExpressionPreset::Aa, f.coeff("jawOpen"@), LIP_GATE as int);
    let r11 = rule(VrmExpressionPreset::Ou, f.coeff("mouthPucker"@), LIP_GATE as int);
    let r12 = rule(VrmExpressionPreset::Oh, f.coeff("mouthFunnel"@), LIP_GATE as int);
    lemma_concat_clamped(r1, r2);
    lemma_concat_clamped(r1 + r2, r3);
    lemma_concat_clamped(r1 + r2 + r3, r4);
    lemma_concat_clamped(r1 + r2 + r3 + r4, r5);
    lemma_concat_clamped(r1 + r2 + r3 + r4 + r5, r6);
    lemma_concat_clamped(r1 + r2 + r3 + r4 + r5 + r6, r7);
    lemma_concat_clamped(r1 + r2 + r3 + r4 + r5 + r6 + r7, r8);
    lemma_concat_clamped(r1 + r2 + r3 + r4 + r5 + r6 + r7 + r8, r9);
    lemma_concat_clamped(r1 + r2 + r3 + r4 + r5 + r6 + r7 + r8 + r9, r10);
    lemma_concat_clamped(r1 + r2 + r3 + r4 + r5 + r6 + r7 + r8 + r9 + r10, r11);
    lemma_concat_clamped(r1 + r2 + r3 + r4 + r5 + r6 + r7 + r8 + r9 + r10 + r11, r12);
}

/// Some entry of `s` carries the preset `p`.
pub open spec fn contains_preset(s: Seq<ExpressionView>, p: VrmExpressionPreset) -> bool {
    exists|i: int| 0 <= i < s.len() && #[trigger] s[i].preset == p
}

/// The emotion threshold is strict: "Happy" is emitted exactly when
/// the smile mean exceeds it, so a mean that only reaches it is not
/// enough.
pub proof fn lemma_happy_emitted_iff_above_gate(f: BlendshapeFrame)
    ensures
        contains_preset(arkit_expressions_spec(f), VrmExpressionPreset::Happy)
            <==> smile_mean(f) > EMOTION_GATE as int,
{
    let r1 = rule(VrmExpressionPreset::BlinkLeft, f.coeff("eyeBlinkLeft"@), 0);
    let r2 = rule(VrmExpressionPreset::BlinkRight, f.coeff("eyeBlinkRight"@), 0);
    let r3 = rule(VrmExpressionPreset::Blink, blink_mean(f), 0);
    let r4 = rule(VrmExpressionPreset::LookUp, look_up_mean(f), 0);
    let r5 = rule(VrmExpressionPreset::LookDown, look_down_mean(f), 0);
    let r6 = rule(VrmExpressionPreset::LookLeft, look_left_mean(f), 0);
    let r7 = rule(VrmExpressionPreset::LookRight, look_right_mean(f), 0);
    let r8 = rule(VrmExpressionPreset::Happy, smile_mean(f), EMOTION_GATE as int);
    let r9 = rule(VrmExpressionPreset::Sad, frown_mean(f), EMOTION_GATE as int);
    let r10 = rule(VrmExpressionPreset::Aa, f.coeff("jawOpen"@), LIP_GATE as int);
    let r11 = rule(VrmExpressionPreset::Ou, f.coeff("mouthPucker"@), LIP_GATE as int);
    let r12 = rule(VrmExpressionPreset::Oh, f.coeff("mouthFunnel"@), LIP_GATE as int);
    let p7 = r1 + r2 + r3 + r4 + r5 + r6 + r7;
    let p8 = p7 + r8;
    let s = arkit_expressions_spec(f);
    assert(s == p8 + r9 + r10 + r11 + r12);
    if smile_mean(f) > EMOTION_GATE as int {
        let i = p7.len() as int;
        assert(p8[i] == r8[0]);
        assert(s[i] == p8[i]);
        assert(s[i].preset == VrmExpressionPreset::Happy);
    } else {
        assert(r8.len() == 0);
        assert forall|i: int| 0 <= i < s.len() implies #[trigger] s[i].preset
            != VrmExpressionPreset::Happy by {
            let l1 = r1.len();
            let l2 = l1 + r2.len();
            let l3 = l2 + r3.len();
            let l4 = l3 + r4.len();
            let l5 = l4 + r5.len();
            let l6 = l5 + r6.len();
            let l7 = l6 + r7.len();
            let l9 = l7 + r9.len();
            let l10 = l9 + r10.len();
            let l11 = l10 + r11.len();
            if i < l1 {
                assert(s[i] == r1[i]);
            } else if i < l2 {
                assert(s[i] == r2[i - l1]);
            } else if i < l3 {
                assert(s[i] == r3[i - l2]);
            } else if i < l4 {
                assert(s[i] == r4[i - l3]);
            } else if i < l5 {
                assert(s[i] == r5[i - l4]);
            } else if i < l6 {
                assert(s[i] == r6[i - l5]);
            } else if i < l7 {
                assert(s[i] == r7[i - l6]);
            } else if i < l9 {
                assert(s[i] == r9[i - l7]);
            } else if i < l10 {
                assert(s[i] == r10[i - l9]);
            } else if i < l11 {
                assert(s[i] == r11[i - l10]);
            } else {
                assert(s[i] == r12[i - l11]);
            }
        }
    }
}

/// The mapper reads nothing but its twelve named channels: two frames
/// that agree on every coefficient the rule table reads are mapped to
/// the same expressions, whatever else they hold.  In particular the
/// mapping is a pure function of the frame: repeating a call can never
/// change the output.
pub proof fn lemma_expressions_read_only_named_channels(f: BlendshapeFrame, g: BlendshapeFrame)
    requires
        f.coeff("eyeBlinkLeft"@) == g.coeff("eyeBlinkLeft"@),
        f.coeff("eyeBlinkRight"@) == g.coeff("eyeBlinkRight"@),
        f.coeff("eyeLookUpLeft"@) == g.coeff("eyeLookUpLeft"@),
        f.coeff("eyeLookUpRight"@) == g.coeff("eyeLookUpRight"@),
        f.coeff("eyeLookDownLeft"@) == g.coeff("eyeLookDownLeft"@),
        f.coeff("eyeLookDownRight"@) == g.coeff("eyeLookDownRight"@),
        f.coeff("eyeLookInLeft"@) == g.coeff("eyeLookInLeft"@),
        f.coeff("eyeLookInRight"@) == g.coeff("eyeLookInRight"@),
        f.coeff("eyeLookOutLeft"@) == g.coeff("eyeLookOutLeft"@),
        f.coeff("eyeLookOutRight"@) == g.coeff("eyeLookOutRight"@),
        f.coeff("mouthSmileLeft"@) == g.coeff("mouthSmileLeft"@),
        f.coeff("mouthSmileRight"@) == g.coeff("mouthSmileRight"@),
        f.coeff("mouthFrownLeft"@) == g.coeff("mouthFrownLeft"@),
        f.coeff("mouthFrownRight"@) == g.coeff("mouthFrownRight"@),
        f.coeff("jawOpen"@) == g.coeff("jawOpen"@),
        f.coeff("mouthPucker"@) == g.coeff("mouthPucker"@),
        f.coeff("mouthFunnel"@) == g.coeff("mouthFunnel"@),
    ensures
        arkit_expressions_spec(f) == arkit_expressions_spec(g),
{
}

impl BlendshapeToExpression for ArkitToVrmAdapter {
    fn to_vrm_expressions(&self, raw_blendshapes: &BlendshapeFrame) -> (expressions: Vec<
        VrmExpression,
    >) {
        let expressions = ArkitToVrmAdapter::to_vrm_expressions(self, raw_blendshapes);
        proof {
            lemma_expression_weights_clamped(*raw_blendshapes);
        }
        expressions
    }
}

} // verus!
