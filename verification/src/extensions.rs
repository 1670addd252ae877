//! Data model of the VRM avatar extension.
//!
//! These records carry what the avatar asset's extension block declares:
//! model metadata, the humanoid bone mapping, the expression definitions
//! with their morph-target bindings, the look-at configuration and the
//! first-person annotations.  Scalar weights are held in fixed-point
//! ticks, like every other quantity of this library.

use vstd::prelude::*;

verus! {

/// Model metadata of an avatar asset.
#[derive(Clone, Debug)]
pub struct VrmMeta {
    /// Name of the model.
    pub name: String,
    /// Version of the model.
    pub version: String,
    /// Authors of the model.
    pub authors: Vec<String>,
    /// Copyright holder.
    pub copyright_information: String,
    /// Contact information.
    pub contact_information: String,
    /// Reference URLs.
    pub references: Vec<String>,
    /// Third-party licenses.
    pub third_party_licenses: String,
    /// Image index of the thumbnail, if any.
    pub thumbnail_image: Option<usize>,
    /// License URL.
    pub license_url: String,
    /// Avatar usage permission.
    pub avatar_permission: String,
    /// Commercial usage permission.
    pub commercial_usage: String,
    /// Credit notation requirement.
    pub credit_notation: String,
    /// Modification permission.
    pub modification: String,
    /// Whether redistribution of modifications is allowed.
    pub allow_redistribution: bool,
}

impl Default for VrmMeta {
    /// Metadata of a model that declared nothing: a placeholder name
    /// and every other field empty.
    fn default() -> (meta: VrmMeta)
        ensures
            meta.name@ == "Unnamed VRM"@,
            meta.version@ == Seq::<char>::empty(),
            meta.authors@ == Seq::<String>::empty(),
            meta.copyright_information@ == Seq::<char>::empty(),
            meta.contact_information@ == Seq::<char>::empty(),
            meta.references@ == Seq::<String>::empty(),
            meta.third_party_licenses@ == Seq::<char>::empty(),
            meta.thumbnail_image == None::<usize>,
            meta.license_url@ == Seq::<char>::empty(),
            meta.avatar_permission@ == Seq::<char>::empty(),
            meta.commercial_usage@ == Seq::<char>::empty(),
            meta.credit_notation@ == Seq::<char>::empty(),
            meta.modification@ == Seq::<char>::empty(),
            meta.allow_redistribution == false,
    {
        VrmMeta {
            name: "Unnamed VRM".to_owned(),
            version: String::new(),
            authors: Vec::new(),
            copyright_information: String::new(),
            contact_information: String::new(),
            references: Vec::new(),
            third_party_licenses: String::new(),
            thumbnail_image: None,
            license_url: String::new(),
            avatar_permission: String::new(),
            commercial_usage: String::new(),
            credit_notation: String::new(),
            modification: String::new(),
            allow_redistribution: false,
        }
    }
}

/// A single humanoid bone mapping: the scene node the bone binds to.
#[derive(Clone, Copy, Debug, PartialEq, Eq, Structural)]
pub struct VrmHumanBone {
    /// Scene node index.
    pub node: usize,
}

/// The humanoid bone mapping: canonical bone names paired with their
/// nodes.
#[derive(Clone, Debug)]
pub struct VrmHumanoid {
    /// Bone name and bone, one pair per declared bone.
    pub human_bones: Vec<(String, VrmHumanBone)>,
}

/// Morph-target binding of an expression, with the weight in ticks.
#[derive(Clone, Copy, Debug, PartialEq, Eq, Structural)]
pub struct VrmMorphTargetBind {
    /// Scene node index.
    pub node: usize,
    /// Morph target index within the node's mesh.
    pub index: usize,
    /// Weight in ticks of full activation.
    pub weight: i64,
}

/// Material color binding of an expression, with the color in ticks.
#[derive(Clone, Debug)]
pub struct VrmMaterialColorBind {
    /// Material index.
    pub material: usize,
    /// Bound property.
    pub property_type: String,
    /// Target color value in ticks per channel.
    pub target_value: [i64; 4],
}

/// Texture transform binding of an expression, in ticks.
#[derive(Clone, Debug)]
pub struct VrmTextureTransformBind {
    /// Material index.
    pub material: usize,
    /// UV scale in ticks.
    pub scale: [i64; 2],
    /// UV offset in ticks.
    pub offset: [i64; 2],
}

/// One expression the asset declares, with its bindings.
#[derive(Clone, Debug)]
pub struct VrmExpression {
    /// Morph targets the expression drives.
    pub morph_target_binds: Vec<VrmMorphTargetBind>,
    /// Material colors the expression drives.
    pub material_color_binds: Vec<VrmMaterialColorBind>,
    /// Texture transforms the expression drives.
    pub texture_transform_binds: Vec<VrmTextureTransformBind>,
    /// Whether the expression is all-or-nothing.
    pub is_binary: bool,
    /// How the expression overrides blinking.
    pub override_blink: String,
    /// How the expression overrides gaze.
    pub override_look_at: String,
    /// How the expression overrides the mouth.
    pub override_mouth: String,
}

/// Range map of a look-at axis, in ticks.
#[derive(Clone, Copy, Debug, PartialEq, Eq, Structural)]
pub struct VrmLookAtRangeMap {
    /// Largest input the map accepts, in ticks.
    pub input_max_value: i64,
    /// Output scale in ticks.
    pub output_scale: i64,
}

/// Look-at configuration of the asset.
#[derive(Clone, Debug)]
pub struct VrmLookAt {
    /// Eye offset from the head bone, in ticks of a meter.
    pub offset_from_head_bone: [i64; 3],
    /// Kind of gaze control.
    pub look_at_type: String,
    /// Range map toward the inner horizontal direction.
    pub range_map_horizontal_inner: Option<VrmLookAtRangeMap>,
    /// Range map toward the outer horizontal direction.
    pub range_map_horizontal_outer: Option<VrmLookAtRangeMap>,
    /// Range map downward.
    pub range_map_vertical_down: Option<VrmLookAtRangeMap>,
    /// Range map upward.
    pub range_map_vertical_up: Option<VrmLookAtRangeMap>,
}

/// First-person annotation of one mesh.
#[derive(Clone, Debug)]
pub struct VrmFirstPersonMeshAnnotation {
    /// Scene node index.
    pub node: usize,
    /// How the mesh shows in first person.
    pub annotation_type: String,
}

/// First-person view configuration.
#[derive(Clone, Debug)]
pub struct VrmFirstPerson {
    /// Per-mesh annotations.
    pub mesh_annotations: Vec<VrmFirstPersonMeshAnnotation>,
}

/// The expressions an asset declares: standard presets and custom ones,
/// each a name paired with its definition.
#[derive(Clone, Debug)]
pub struct VrmExpressions {
    /// Preset expressions under their canonical names.
    pub preset: Vec<(String, VrmExpression)>,
    /// Custom expressions under user-chosen names.
    pub custom: Vec<(String, VrmExpression)>,
}

impl Default for VrmExpressions {
    /// No expressions at all.
    fn default() -> (e: VrmExpressions)
        ensures
            e.preset@ == Seq::<(String, VrmExpression)>::empty(),
            e.custom@ == Seq::<(String, VrmExpression)>::empty(),
    {
        VrmExpressions { preset: Vec::new(), custom: Vec::new() }
    }
}

/// The whole avatar extension block.
#[derive(Clone, Debug)]
pub struct VrmcVrmExtension {
    /// Version of the extension specification.
    pub spec_version: String,
    /// Model metadata.
    pub meta: VrmMeta,
    /// Humanoid bone mapping.
    pub humanoid: Option<VrmHumanoid>,
    /// Declared expressions.
    pub expressions: VrmExpressions,
    /// Look-at configuration.
    pub look_at: Option<VrmLookAt>,
    /// First-person configuration.
    pub first_person: Option<VrmFirstPerson>,
}

} // verus!
