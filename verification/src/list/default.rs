//! The default pipeline: a shadow depth pass, a scene pass that lays down
//! depth, draws the skybox and shades opaque geometry, and a blit to the
//! screen.

use vstd::float::FloatBitsProperties;
use vstd::prelude::*;
use super::model::{RenderListModel, RenderPassModel, RenderPassSetModel};
use super::passes::{
    ImageOutput, ImageOutputModel, RenderOpDescriptor, RenderOpInputType, RenderOpModel,
    RenderPassDescriptor, RenderPassDescriptorModel, RenderPassSetDescriptor,
    RenderPassSetRunRate, ResourceBinding, ResourceBindingModel,
};
use super::resources::{
    ImageInputReference, ImageInputReferenceModel, ImageModel, ImageOutputReference,
    ImageOutputReferenceModel, ImageReference, ImageReferenceModel, ImageResolution,
    ImageResolutionModel, ImageResourceDescriptor, ShaderSource, ShaderSourceModel,
    ShaderSourceType, ShaderSourceTypeModel, ShaderStage, SourceShaderDescriptor,
    SourceShaderDescriptorModel,
};
use super::RenderList;
use crate::renderer::MAX_MATERIALS;

verus! {

/// The character of a decimal digit.
pub open spec fn digit(value: nat) -> char
    recommends
        value < 10,
{
    if value == 0 {
        '0'
    } else if value == 1 {
        '1'
    } else if value == 2 {
        '2'
    } else if value == 3 {
        '3'
    } else if value == 4 {
        '4'
    } else if value == 5 {
        '5'
    } else if value == 6 {
        '6'
    } else if value == 7 {
        '7'
    } else if value == 8 {
        '8'
    } else {
        '9'
    }
}

/// A number written in decimal digits, without a sign or leading zeros.
pub open spec fn decimal(value: nat) -> Seq<char>
    decreases value,
{
    if value < 10 {
        seq![digit(value)]
    } else {
        decimal(value / 10).push(digit(value % 10))
    }
}

/// `usize::to_string`: the number in decimal digits, as `Display` prints an
/// unsigned integer.
#[verifier::external_body]
fn decimal_string(value: usize) -> (text: String)
    ensures
        text@ == decimal(value as nat),
{
    value.to_string()
}

/// The scale is one on both axes: each axis holds the bits of the
/// single-precision number one.
pub open spec fn is_unit_scale(scale: glam::Vec2) -> bool {
    scale.x.to_bits_spec() == 0x3f80_0000u32 && scale.y.to_bits_spec() == 0x3f80_0000u32
}

/// `glam::Vec2::ONE`: the vector that is one on both axes.
#[verifier::external_body]
fn unit_scale() -> (scale: glam::Vec2)
    ensures
        is_unit_scale(scale),
{
    glam::Vec2::ONE
}

/// The material count in decimal digits is `2048`.
pub proof fn lemma_material_count_text()
    ensures
        decimal(MAX_MATERIALS as nat) == "2048"@,
{
    reveal_strlit("2048");
    reveal_with_fuel(decimal, 4);
    assert(decimal(MAX_MATERIALS as nat) =~= "2048"@);
}

/// The define that tells a shader how many materials there are.
pub open spec fn material_count_define() -> (Seq<char>, Option<Seq<char>>) {
    ("MATERIAL_COUNT"@, Some(decimal(MAX_MATERIALS as nat)))
}

/// Model of a GLSL shader read from `path`, with no includes.
pub open spec fn glsl_file(
    path: Seq<char>,
    stage: ShaderStage,
    defines: Seq<(Seq<char>, Option<Seq<char>>)>,
) -> ShaderSourceModel {
    ShaderSourceModel::Glsl(
        SourceShaderDescriptorModel {
            source: ShaderSourceTypeModel::File(path),
            stage,
            includes: Seq::empty(),
            defines,
        },
    )
}

/// The shader registry of the default pipeline.
///
/// The fragment shaders of the skybox and of the blit are written under the
/// names of their vertex shaders, `skybox vert` and `blit vert`, and so
/// replace them: six names are left, not eight. See [`default_render_list`].
pub open spec fn default_shaders() -> Map<Seq<char>, ShaderSourceModel> {
    Map::empty().insert(
        "depth vert"@,
        glsl_file("rend3/shaders/depth.vert"@, ShaderStage::Vertex, seq![material_count_define()]),
    ).insert(
        "depth frag"@,
        glsl_file(
            "rend3/shaders/depth.frag"@,
            ShaderStage::Fragment,
            seq![material_count_define()],
        ),
    ).insert(
        "skybox vert"@,
        glsl_file("rend3/shaders/skybox.frag"@, ShaderStage::Fragment, Seq::empty()),
    ).insert(
        "opaque vert"@,
        glsl_file(
            "rend3/shaders/opaque.vert"@,
            ShaderStage::Vertex,
            seq![material_count_define()],
        ),
    ).insert(
        "opaque frag"@,
        glsl_file(
            "rend3/shaders/opaque.frag"@,
            ShaderStage::Fragment,
            seq![material_count_define()],
        ),
    ).insert(
        "blit vert"@,
        glsl_file("rend3/shaders/blit.frag"@, ShaderStage::Fragment, Seq::empty()),
    )
}

/// Model of a single-sampled image as large as `base`, scaled by `scale`.
pub open spec fn image_like(
    base: ImageReferenceModel,
    scale: glam::Vec2,
    format: wgpu::TextureFormat,
) -> ImageModel {
    ImageModel { resolution: ImageResolutionModel::Relative(base, scale), format, samples: 1 }
}

/// The image registry of the default pipeline: a colour renderbuffer as
/// large as the output image, and a normal buffer and a depth buffer as
/// large as the renderbuffer, all scaled by `scale`.
pub open spec fn default_images(scale: glam::Vec2) -> Map<Seq<char>, ImageModel> {
    Map::empty().insert(
        "color renderbuffer"@,
        image_like(ImageReferenceModel::OutputImage, scale, wgpu::TextureFormat::Rgba16Float),
    ).insert(
        "normal buffer"@,
        image_like(
            ImageReferenceModel::Custom("color renderbuffer"@),
            scale,
            wgpu::TextureFormat::Rgba16Float,
        ),
    ).insert(
        "depth_buffer"@,
        image_like(
            ImageReferenceModel::Custom("color renderbuffer"@),
            scale,
            wgpu::TextureFormat::Depth32Float,
        ),
    )
}

/// The bindings of an operation that draws the scene's models.
pub open spec fn scene_bindings() -> Seq<ResourceBindingModel> {
    seq![
        ResourceBindingModel::GeneralData,
        ResourceBindingModel::ObjectData,
        ResourceBindingModel::GPU2DTextures,
        ResourceBindingModel::CameraData,
    ]
}

/// Model of an operation that draws the scene's models with the shaders
/// `vertex` and `fragment`.
pub open spec fn scene_op(vertex: Seq<char>, fragment: Seq<char>) -> RenderOpModel {
    RenderOpModel {
        input: RenderOpInputType::Models3D,
        vertex,
        fragment: Some(fragment),
        bindings: scene_bindings(),
    }
}

/// Model of an operation that draws one fullscreen triangle.
pub open spec fn fullscreen_op(
    vertex: Seq<char>,
    fragment: Seq<char>,
    bindings: Seq<ResourceBindingModel>,
) -> RenderOpModel {
    RenderOpModel {
        input: RenderOpInputType::FullscreenTriangle,
        vertex,
        fragment: Some(fragment),
        bindings,
    }
}

/// Model of a colour output to the registered image `name`, not resolved.
pub open spec fn output_to(name: Seq<char>) -> ImageOutputModel {
    ImageOutputModel { output: ImageOutputReferenceModel::Custom(name), resolve_target: None }
}

/// The set that runs once per shadow: one pass that writes depth only, with
/// one operation that draws the scene.
pub open spec fn shadow_set() -> RenderPassSetModel {
    RenderPassSetModel {
        run_rate: RenderPassSetRunRate::PerShadow,
        passes: seq![
            RenderPassModel {
                desc: RenderPassDescriptorModel {
                    outputs: Seq::empty(),
                    depth: Some(ImageOutputReferenceModel::OutputImage),
                },
                ops: seq![scene_op("depth vert"@, "depth frag"@)],
            },
        ],
    }
}

/// The set that runs once per frame. Its first pass writes the renderbuffer
/// and the normal buffer, with the depth buffer for depth, and holds three
/// operations: depth, skybox and opaque shading. Its second pass writes the
/// output image, and holds the blit.
pub open spec fn frame_set() -> RenderPassSetModel {
    RenderPassSetModel {
        run_rate: RenderPassSetRunRate::Once,
        passes: seq![
            RenderPassModel {
                desc: RenderPassDescriptorModel {
                    outputs: seq![output_to("color renderbuffer"@), output_to("normal buffer"@)],
                    depth: Some(ImageOutputReferenceModel::Custom("depth_buffer"@)),
                },
                ops: seq![
                    scene_op("depth vert"@, "depth frag"@),
                    fullscreen_op(
                        "skybox vert"@,
                        "skybox frag"@,
                        seq![
                            ResourceBindingModel::GeneralData,
                            ResourceBindingModel::SkyboxTexture,
                            ResourceBindingModel::CameraData,
                        ],
                    ),
                    scene_op("opaque vert"@, "opaque frag"@),
                ],
            },
            RenderPassModel {
                desc: RenderPassDescriptorModel {
                    outputs: seq![
                        ImageOutputModel {
                            output: ImageOutputReferenceModel::OutputImage,
                            resolve_target: None,
                        },
                    ],
                    depth: None,
                },
                ops: seq![
                    fullscreen_op(
                        "blit vert"@,
                        "blit frag"@,
                        seq![
                            ResourceBindingModel::GeneralData,
                            ResourceBindingModel::Custom2DTexture(
                                seq![ImageInputReferenceModel::Custom("color renderbuffer"@)],
                            ),
                        ],
                    ),
                ],
            },
        ],
    }
}

/// Model of the default pipeline, whose relative images scale by `scale`.
pub open spec fn default_list_model(scale: glam::Vec2) -> RenderListModel {
    RenderListModel {
        sets: seq![shadow_set(), frame_set()],
        shaders: default_shaders(),
        images: default_images(scale),
        buffers: Map::empty(),
    }
}

/// The names under which the default pipeline registers differ from each
/// other.
proof fn lemma_default_names_differ()
    ensures
        "depth vert"@ != "depth frag"@,
        "depth vert"@ != "skybox vert"@,
        "depth vert"@ != "opaque vert"@,
        "depth vert"@ != "opaque frag"@,
        "depth vert"@ != "blit vert"@,
        "depth frag"@ != "skybox vert"@,
        "depth frag"@ != "opaque vert"@,
        "depth frag"@ != "opaque frag"@,
        "depth frag"@ != "blit vert"@,
        "skybox vert"@ != "opaque vert"@,
        "skybox vert"@ != "opaque frag"@,
        "skybox vert"@ != "blit vert"@,
        "opaque vert"@ != "opaque frag"@,
        "opaque vert"@ != "blit vert"@,
        "opaque frag"@ != "blit vert"@,
        "color renderbuffer"@ != "normal buffer"@,
        "color renderbuffer"@ != "depth_buffer"@,
        "normal buffer"@ != "depth_buffer"@,
{
    reveal_strlit("depth vert");
    reveal_strlit("depth frag");
    reveal_strlit("skybox vert");
    reveal_strlit("opaque vert");
    reveal_strlit("opaque frag");
    reveal_strlit("blit vert");
    reveal_strlit("color renderbuffer");
    reveal_strlit("normal buffer");
    reveal_strlit("depth_buffer");
    assert("depth vert"@[6] != "depth frag"@[6]);
    assert("depth vert"@[0] != "skybox vert"@[0]);
    assert("depth vert"@[0] != "opaque vert"@[0]);
    assert("depth vert"@[0] != "opaque frag"@[0]);
    assert("depth vert"@[0] != "blit vert"@[0]);
    assert("depth frag"@[0] != "skybox vert"@[0]);
    assert("depth frag"@[0] != "opaque vert"@[0]);
    assert("depth frag"@[0] != "opaque frag"@[0]);
    assert("depth frag"@[0] != "blit vert"@[0]);
    assert("skybox vert"@[0] != "opaque vert"@[0]);
    assert("skybox vert"@[0] != "opaque frag"@[0]);
    assert("skybox vert"@[0] != "blit vert"@[0]);
    assert("opaque vert"@[7] != "opaque frag"@[7]);
    assert("opaque vert"@[0] != "blit vert"@[0]);
    assert("opaque frag"@[0] != "blit vert"@[0]);
    assert("color renderbuffer"@[0] != "normal buffer"@[0]);
    assert("color renderbuffer"@[0] != "depth_buffer"@[0]);
    assert("normal buffer"@[0] != "depth_buffer"@[0]);
}

/// The default pipeline registers six shaders and three images, under these
/// names, and no buffer.
pub proof fn lemma_default_registries(scale: glam::Vec2)
    ensures
        default_list_model(scale).shaders.dom() == set![
            "depth vert"@,
            "depth frag"@,
            "skybox vert"@,
            "opaque vert"@,
            "opaque frag"@,
            "blit vert"@,
        ],
        default_list_model(scale).shaders.len() == 6,
        default_list_model(scale).images.dom() == set![
            "color renderbuffer"@,
            "normal buffer"@,
            "depth_buffer"@,
        ],
        default_list_model(scale).images.len() == 3,
        default_list_model(scale).buffers.len() == 0,
{
    lemma_default_names_differ();
    assert(default_shaders().dom() =~= set![
        "depth vert"@,
        "depth frag"@,
        "skybox vert"@,
        "opaque vert"@,
        "opaque frag"@,
        "blit vert"@,
    ]);
    assert(default_images(scale).dom() =~= set![
        "color renderbuffer"@,
        "normal buffer"@,
        "depth_buffer"@,
    ]);
}

/// Every image that a pass of the default pipeline writes is registered, and
/// the depth output of the frame set's first pass is the image of the depth
/// format.
pub proof fn lemma_default_outputs_are_registered(scale: glam::Vec2)
    ensures
        ({
            let list = default_list_model(scale);
            let written = list.sets[1].passes[0].desc;
            &&& written.outputs.len() == 2
            &&& written.outputs[0] == output_to("color renderbuffer"@)
            &&& written.outputs[1] == output_to("normal buffer"@)
            &&& written.depth == Some(ImageOutputReferenceModel::Custom("depth_buffer"@))
            &&& list.images.contains_key("color renderbuffer"@)
            &&& list.images.contains_key("normal buffer"@)
            &&& list.images.contains_key("depth_buffer"@)
            &&& list.images["depth_buffer"@].format == wgpu::TextureFormat::Depth32Float
        }),
{
    lemma_default_names_differ();
}

/// A GLSL shader read from `path`, with no includes.
fn shader_file(path: &str, stage: ShaderStage, defines: Vec<(String, Option<String>)>) -> (shader:
    ShaderSource)
    ensures
        shader.deep_view() == glsl_file(path@, stage, defines.deep_view()),
{
    let includes: Vec<String> = Vec::new();
    assert(includes.deep_view() =~= Seq::empty());
    ShaderSource::Glsl(
        SourceShaderDescriptor {
            source: ShaderSourceType::File(path.to_owned()),
            stage,
            includes,
            defines,
        },
    )
}

/// The defines of a shader that indexes the material table.
fn material_defines() -> (defines: Vec<(String, Option<String>)>)
    ensures
        defines.deep_view() == seq![material_count_define()],
{
    let defines = vec![("MATERIAL_COUNT".to_owned(), Some(decimal_string(MAX_MATERIALS)))];
    assert(defines.deep_view() =~= seq![material_count_define()]);
    defines
}

/// No defines.
fn no_defines() -> (defines: Vec<(String, Option<String>)>)
    ensures
        defines.deep_view() == Seq::<(Seq<char>, Option<Seq<char>>)>::empty(),
{
    let defines: Vec<(String, Option<String>)> = Vec::new();
    assert(defines.deep_view() =~= Seq::empty());
    defines
}

/// An operation that draws the scene's models.
fn draw_scene(vertex: &str, fragment: &str) -> (op: RenderOpDescriptor)
    ensures
        op.deep_view() == scene_op(vertex@, fragment@),
{
    let bindings = vec![
        ResourceBinding::GeneralData,
        ResourceBinding::ObjectData,
        ResourceBinding::GPU2DTextures,
        ResourceBinding::CameraData,
    ];
    assert(bindings.deep_view() =~= scene_bindings());
    RenderOpDescriptor {
        input: RenderOpInputType::Models3D,
        vertex: vertex.to_owned(),
        fragment: Some(fragment.to_owned()),
        bindings,
    }
}

/// A single-sampled image as large as `base`, scaled by `scale`.
fn image_sized_like(base: ImageReference, scale: glam::Vec2, format: wgpu::TextureFormat) -> (image:
    ImageResourceDescriptor)
    ensures
        image.deep_view() == image_like(base.deep_view(), scale, format),
{
    ImageResourceDescriptor { resolution: ImageResolution::Relative(base, scale), format, samples: 1 }
}

/// Builds the default pipeline.
///
/// Two sets come out. The first runs once per shadow and holds one pass with
/// one operation, which draws the scene's depth. The second runs once per
/// frame and holds two passes: the first with three operations (depth,
/// skybox, opaque shading), the second with the blit to the output image.
/// Every relative image scales by the same factor, one on both axes.
///
/// Every image that a pass writes is registered. Two shader names do not
/// resolve in the list that comes out: the operations name the shaders
/// `skybox frag` and `blit frag`, but the two fragment shaders are written
/// under `skybox vert` and `blit vert`, where each replaces the vertex shader
/// written just before it. Both look like slips in a name. The registries do
/// what they always do, the last write to a name wins, and
/// [`RenderList::validate`] reports what is left unresolved.
pub fn default_render_list() -> (list: RenderList)
    ensures
        exists|scale: glam::Vec2| is_unit_scale(scale) && list@ == default_list_model(scale),
{
    let mut list = RenderList::new();
    let scale = unit_scale();

    list.create_shader(
        "depth vert",
        shader_file("rend3/shaders/depth.vert", ShaderStage::Vertex, material_defines()),
    );
    list.create_shader(
        "depth frag",
        shader_file("rend3/shaders/depth.frag", ShaderStage::Fragment, material_defines()),
    );

    list.start_render_pass_set(RenderPassSetDescriptor { run_rate: RenderPassSetRunRate::PerShadow });

    let outputs: Vec<ImageOutput> = Vec::new();
    assert(outputs.deep_view() =~= Seq::empty());
    list.add_render_pass(
        RenderPassDescriptor { outputs, depth: Some(ImageOutputReference::OutputImage) },
    );

    list.add_render_op(draw_scene("depth vert", "depth frag"));

    let internal_renderbuffer_name = "color renderbuffer";
    let depth_buffer_name = "depth_buffer";

    list.create_image(
        internal_renderbuffer_name,
        image_sized_like(ImageReference::OutputImage, scale, wgpu::TextureFormat::Rgba16Float),
    );
    list.create_image(
        "normal buffer",
        image_sized_like(
            ImageReference::Custom(internal_renderbuffer_name.to_owned()),
            scale,
            wgpu::TextureFormat::Rgba16Float,
        ),
    );
    list.create_image(
        depth_buffer_name,
        image_sized_like(
            ImageReference::Custom(internal_renderbuffer_name.to_owned()),
            scale,
            wgpu::TextureFormat::Depth32Float,
        ),
    );

    list.start_render_pass_set(RenderPassSetDescriptor { run_rate: RenderPassSetRunRate::Once });

    let outputs = vec![
        ImageOutput {
            output: ImageOutputReference::Custom(internal_renderbuffer_name.to_owned()),
            resolve_target: None,
        },
        ImageOutput {
            output: ImageOutputReference::Custom("normal buffer".to_owned()),
            resolve_target: None,
        },
    ];
    assert(outputs.deep_view() =~= seq![
        output_to("color renderbuffer"@),
        output_to("normal buffer"@),
    ]);
    list.add_render_pass(
        RenderPassDescriptor {
            outputs,
            depth: Some(ImageOutputReference::Custom(depth_buffer_name.to_owned())),
        },
    );

    list.add_render_op(draw_scene("depth vert", "depth frag"));

    list.create_shader(
        "skybox vert",
        shader_file("rend3/shaders/skybox.vert", ShaderStage::Vertex, no_defines()),
    );
    list.create_shader(
        "skybox vert",
        shader_file("rend3/shaders/skybox.frag", ShaderStage::Fragment, no_defines()),
    );

    let bindings = vec![
        ResourceBinding::GeneralData,
        ResourceBinding::SkyboxTexture,
        ResourceBinding::CameraData,
    ];
    assert(bindings.deep_view() =~= seq![
        ResourceBindingModel::GeneralData,
        ResourceBindingModel::SkyboxTexture,
        ResourceBindingModel::CameraData,
    ]);
    list.add_render_op(
        RenderOpDescriptor {
            input: RenderOpInputType::FullscreenTriangle,
            vertex: "skybox vert".to_owned(),
            fragment: Some("skybox frag".to_owned()),
            bindings,
        },
    );

    list.create_shader(
        "opaque vert",
        shader_file("rend3/shaders/opaque.vert", ShaderStage::Vertex, material_defines()),
    );
    list.create_shader(
        "opaque frag",
        shader_file("rend3/shaders/opaque.frag", ShaderStage::Fragment, material_defines()),
    );

    list.add_render_op(draw_scene("opaque vert", "opaque frag"));

    let outputs = vec![
        ImageOutput { output: ImageOutputReference::OutputImage, resolve_target: None },
    ];
    assert(outputs.deep_view() =~= seq![
        ImageOutputModel { output: ImageOutputReferenceModel::OutputImage, resolve_target: None },
    ]);
    list.add_render_pass(RenderPassDescriptor { outputs, depth: None });

    list.create_shader(
        "blit vert",
        shader_file("rend3/shaders/blit.vert", ShaderStage::Vertex, no_defines()),
    );
    list.create_shader(
        "blit vert",
        shader_file("rend3/shaders/blit.frag", ShaderStage::Fragment, no_defines()),
    );

    let sources = vec![ImageInputReference::Custom(internal_renderbuffer_name.to_owned())];
    assert(sources.deep_view() =~= seq![ImageInputReferenceModel::Custom("color renderbuffer"@)]);
    let bindings = vec![ResourceBinding::GeneralData, ResourceBinding::Custom2DTexture(sources)];
    assert(bindings.deep_view() =~= seq![
        ResourceBindingModel::GeneralData,
        ResourceBindingModel::Custom2DTexture(
            seq![ImageInputReferenceModel::Custom("color renderbuffer"@)],
        ),
    ]);
    list.add_render_op(
        RenderOpDescriptor {
            input: RenderOpInputType::FullscreenTriangle,
            vertex: "blit vert".to_owned(),
            fragment: Some("blit frag".to_owned()),
            bindings,
        },
    );

    assert(list@ =~~= default_list_model(scale));
    list
}

} // verus!
