//! Descriptors of the named resources of a render list: shaders, images and
//! buffers, and the references by which passes and operations point at them.
//!
//! Each descriptor owns heap data (`String`, `Vec`), so each has a model made
//! of `Seq` in which contracts can compare values: its `deep_view`.

use vstd::prelude::*;

verus! {

/// `wgpu::TextureFormat`, the pixel format of an image. The enum is declared
/// with its variants, so a contract can say which format a descriptor holds.
#[verifier::external_type_specification]
pub struct ExTextureFormat(wgpu::TextureFormat);

/// `wgpu::AstcBlock`, which a variant of `wgpu::TextureFormat` carries.
#[verifier::external_type_specification]
pub struct ExAstcBlock(wgpu::AstcBlock);

/// `wgpu::AstcChannel`, which a variant of `wgpu::TextureFormat` carries.
#[verifier::external_type_specification]
pub struct ExAstcChannel(wgpu::AstcChannel);

/// `glam::Vec2`, the factor by which a relative image scales its base, per
/// axis. The struct is declared with its two fields, so a contract can say
/// which scale a descriptor holds. The list only carries the numbers: it
/// never computes with them.
#[verifier::external_type_specification]
pub struct ExVec2(glam::Vec2);

/// The pipeline stage a shader is compiled for.
#[derive(Debug, Clone, Copy, PartialEq, Eq)]
pub enum ShaderStage {
    Vertex,
    Fragment,
    Compute,
}

/// Where the text of a shader comes from.
#[derive(Debug, Clone, PartialEq, Eq)]
pub enum ShaderSourceType {
    /// A path that the shader compiler opens.
    File(String),
}

/// Model of a [`ShaderSourceType`].
#[verifier::ext_equal]
pub enum ShaderSourceTypeModel {
    File(Seq<char>),
}

impl DeepView for ShaderSourceType {
    type V = ShaderSourceTypeModel;

    open spec fn deep_view(&self) -> ShaderSourceTypeModel {
        match self {
            ShaderSourceType::File(path) => ShaderSourceTypeModel::File(path@),
        }
    }
}

/// A shader given as source text together with what the preprocessor needs.
#[derive(Debug, Clone, PartialEq, Eq)]
pub struct SourceShaderDescriptor {
    pub source: ShaderSourceType,
    pub stage: ShaderStage,
    /// Include locators, in the order the preprocessor searches them.
    pub includes: Vec<String>,
    /// Preprocessor defines, in order: a name and, optionally, its value.
    pub defines: Vec<(String, Option<String>)>,
}

/// Model of a [`SourceShaderDescriptor`].
#[verifier::ext_equal]
pub struct SourceShaderDescriptorModel {
    pub source: ShaderSourceTypeModel,
    pub stage: ShaderStage,
    pub includes: Seq<Seq<char>>,
    pub defines: Seq<(Seq<char>, Option<Seq<char>>)>,
}

impl DeepView for SourceShaderDescriptor {
    type V = SourceShaderDescriptorModel;

    open spec fn deep_view(&self) -> SourceShaderDescriptorModel {
        SourceShaderDescriptorModel {
            source: self.source.deep_view(),
            stage: self.stage,
            includes: self.includes.deep_view(),
            defines: self.defines.deep_view(),
        }
    }
}

/// What the shader registry holds under a name.
#[derive(Debug, Clone, PartialEq, Eq)]
pub enum ShaderSource {
    Glsl(SourceShaderDescriptor),
}

/// Model of a [`ShaderSource`].
#[verifier::ext_equal]
pub enum ShaderSourceModel {
    Glsl(SourceShaderDescriptorModel),
}

impl DeepView for ShaderSource {
    type V = ShaderSourceModel;

    open spec fn deep_view(&self) -> ShaderSourceModel {
        match self {
            ShaderSource::Glsl(desc) => ShaderSourceModel::Glsl(desc.deep_view()),
        }
    }
}

/// The image whose size a relative resolution scales.
#[derive(Debug, Clone, PartialEq, Eq)]
pub enum ImageReference {
    /// The image the frame is finally presented in.
    OutputImage,
    /// An image of the registry, by name.
    Custom(String),
}

/// Model of an [`ImageReference`].
#[verifier::ext_equal]
pub enum ImageReferenceModel {
    OutputImage,
    Custom(Seq<char>),
}

impl DeepView for ImageReference {
    type V = ImageReferenceModel;

    open spec fn deep_view(&self) -> ImageReferenceModel {
        match self {
            ImageReference::OutputImage => ImageReferenceModel::OutputImage,
            ImageReference::Custom(name) => ImageReferenceModel::Custom(name@),
        }
    }
}

/// An image that an operation reads.
#[derive(Debug, Clone, PartialEq, Eq)]
pub enum ImageInputReference {
    /// An image of the registry, by name.
    Custom(String),
}

/// Model of an [`ImageInputReference`].
#[verifier::ext_equal]
pub enum ImageInputReferenceModel {
    Custom(Seq<char>),
}

impl DeepView for ImageInputReference {
    type V = ImageInputReferenceModel;

    open spec fn deep_view(&self) -> ImageInputReferenceModel {
        match self {
            ImageInputReference::Custom(name) => ImageInputReferenceModel::Custom(name@),
        }
    }
}

/// An image that a pass writes.
#[derive(Debug, Clone, PartialEq, Eq)]
pub enum ImageOutputReference {
    /// The image the frame is finally presented in.
    OutputImage,
    /// An image of the registry, by name.
    Custom(String),
}

/// Model of an [`ImageOutputReference`].
#[verifier::ext_equal]
pub enum ImageOutputReferenceModel {
    OutputImage,
    Custom(Seq<char>),
}

impl DeepView for ImageOutputReference {
    type V = ImageOutputReferenceModel;

    open spec fn deep_view(&self) -> ImageOutputReferenceModel {
        match self {
            ImageOutputReference::OutputImage => ImageOutputReferenceModel::OutputImage,
            ImageOutputReference::Custom(name) => ImageOutputReferenceModel::Custom(name@),
        }
    }
}

/// How large an image is.
#[derive(Debug, PartialEq)]
pub enum ImageResolution {
    /// Explicit pixel dimensions: width, then height.
    Absolute(u32, u32),
    /// The size of another image, scaled per axis.
    Relative(ImageReference, glam::Vec2),
}

/// Model of an [`ImageResolution`].
#[verifier::ext_equal]
pub enum ImageResolutionModel {
    Absolute(u32, u32),
    Relative(ImageReferenceModel, glam::Vec2),
}

impl DeepView for ImageResolution {
    type V = ImageResolutionModel;

    open spec fn deep_view(&self) -> ImageResolutionModel {
        match self {
            ImageResolution::Absolute(width, height) => ImageResolutionModel::Absolute(
                *width,
                *height,
            ),
            ImageResolution::Relative(base, scale) => ImageResolutionModel::Relative(
                base.deep_view(),
                *scale,
            ),
        }
    }
}

/// What the image registry holds under a name.
#[derive(Debug, PartialEq)]
pub struct ImageResourceDescriptor {
    pub resolution: ImageResolution,
    pub format: wgpu::TextureFormat,
    /// Samples per pixel; more than one makes the image multisampled.
    pub samples: u32,
}

/// Model of an [`ImageResourceDescriptor`].
#[verifier::ext_equal]
pub struct ImageModel {
    pub resolution: ImageResolutionModel,
    pub format: wgpu::TextureFormat,
    pub samples: u32,
}

impl DeepView for ImageResourceDescriptor {
    type V = ImageModel;

    open spec fn deep_view(&self) -> ImageModel {
        ImageModel {
            resolution: self.resolution.deep_view(),
            format: self.format,
            samples: self.samples,
        }
    }
}

/// What the buffer registry holds under a name: linear storage of a given
/// size in bytes. What the bytes mean is the executor's business.
#[derive(Debug, Clone, Copy, PartialEq, Eq)]
pub struct BufferResourceDescriptor {
    pub size: u64,
}

impl DeepView for BufferResourceDescriptor {
    type V = BufferResourceDescriptor;

    open spec fn deep_view(&self) -> BufferResourceDescriptor {
        *self
    }
}

} // verus!
