//! Descriptors of what runs: render-pass sets, the passes in them and the
//! draw operations in a pass.

use vstd::prelude::*;
use super::resources::{
    ImageInputReference, ImageInputReferenceModel, ImageOutputReference,
    ImageOutputReferenceModel,
};

verus! {

/// How often the executor runs the passes of a set.
#[derive(Debug, Clone, Copy, PartialEq, Eq)]
pub enum RenderPassSetRunRate {
    /// Once for every light that casts a shadow.
    PerShadow,
    /// Once per frame.
    Once,
}

/// What a new render-pass set is opened with.
#[derive(Debug, Clone, Copy, PartialEq, Eq)]
pub struct RenderPassSetDescriptor {
    pub run_rate: RenderPassSetRunRate,
}

/// One colour output of a pass.
#[derive(Debug, Clone, PartialEq, Eq)]
pub struct ImageOutput {
    pub output: ImageOutputReference,
    /// Where a multisampled output is resolved to, if anywhere.
    pub resolve_target: Option<ImageOutputReference>,
}

/// Model of an [`ImageOutput`].
#[verifier::ext_equal]
pub struct ImageOutputModel {
    pub output: ImageOutputReferenceModel,
    pub resolve_target: Option<ImageOutputReferenceModel>,
}

impl DeepView for ImageOutput {
    type V = ImageOutputModel;

    open spec fn deep_view(&self) -> ImageOutputModel {
        ImageOutputModel {
            output: self.output.deep_view(),
            resolve_target: self.resolve_target.deep_view(),
        }
    }
}

/// The images a pass writes: colour outputs in order, and a depth output.
#[derive(Debug, Clone, PartialEq, Eq)]
pub struct RenderPassDescriptor {
    pub outputs: Vec<ImageOutput>,
    pub depth: Option<ImageOutputReference>,
}

/// Model of a [`RenderPassDescriptor`].
#[verifier::ext_equal]
pub struct RenderPassDescriptorModel {
    pub outputs: Seq<ImageOutputModel>,
    pub depth: Option<ImageOutputReferenceModel>,
}

impl DeepView for RenderPassDescriptor {
    type V = RenderPassDescriptorModel;

    open spec fn deep_view(&self) -> RenderPassDescriptorModel {
        RenderPassDescriptorModel {
            outputs: self.outputs.deep_view(),
            depth: self.depth.deep_view(),
        }
    }
}

/// The geometry an operation draws.
#[derive(Debug, Clone, Copy, PartialEq, Eq)]
pub enum RenderOpInputType {
    /// One triangle that covers the whole target.
    FullscreenTriangle,
    /// Every 3D model of the scene.
    Models3D,
}

/// One resource bound to an operation. The position of a binding in the
/// operation's list is the slot the executor binds it to.
#[derive(Debug, Clone, PartialEq, Eq)]
pub enum ResourceBinding {
    GeneralData,
    ObjectData,
    GPU2DTextures,
    SkyboxTexture,
    CameraData,
    /// Images of the registry, bound together as one texture array.
    Custom2DTexture(Vec<ImageInputReference>),
}

/// Model of a [`ResourceBinding`].
#[verifier::ext_equal]
pub enum ResourceBindingModel {
    GeneralData,
    ObjectData,
    GPU2DTextures,
    SkyboxTexture,
    CameraData,
    Custom2DTexture(Seq<ImageInputReferenceModel>),
}

impl DeepView for ResourceBinding {
    type V = ResourceBindingModel;

    open spec fn deep_view(&self) -> ResourceBindingModel {
        match self {
            ResourceBinding::GeneralData => ResourceBindingModel::GeneralData,
            ResourceBinding::ObjectData => ResourceBindingModel::ObjectData,
            ResourceBinding::GPU2DTextures => ResourceBindingModel::GPU2DTextures,
            ResourceBinding::SkyboxTexture => ResourceBindingModel::SkyboxTexture,
            ResourceBinding::CameraData => ResourceBindingModel::CameraData,
            ResourceBinding::Custom2DTexture(images) => ResourceBindingModel::Custom2DTexture(
                images.deep_view(),
            ),
        }
    }
}

/// One draw: what geometry, with which shaders, against which bindings.
#[derive(Debug, Clone, PartialEq, Eq)]
pub struct RenderOpDescriptor {
    pub input: RenderOpInputType,
    /// Name of the vertex shader in the shader registry.
    pub vertex: String,
    /// Name of the fragment shader in the shader registry, if the draw has one.
    pub fragment: Option<String>,
    pub bindings: Vec<ResourceBinding>,
}

/// Model of a [`RenderOpDescriptor`].
#[verifier::ext_equal]
pub struct RenderOpModel {
    pub input: RenderOpInputType,
    pub vertex: Seq<char>,
    pub fragment: Option<Seq<char>>,
    pub bindings: Seq<ResourceBindingModel>,
}

impl DeepView for RenderOpDescriptor {
    type V = RenderOpModel;

    open spec fn deep_view(&self) -> RenderOpModel {
        RenderOpModel {
            input: self.input,
            vertex: self.vertex@,
            fragment: self.fragment.deep_view(),
            bindings: self.bindings.deep_view(),
        }
    }
}

} // verus!
