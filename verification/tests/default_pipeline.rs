use rend3::list::{
    default_render_list, ImageInputReference, ImageOutput, ImageOutputReference, ImageReference,
    ImageResolution, ImageResourceDescriptor, RenderOpDescriptor, RenderOpInputType,
    RenderPassDescriptor, RenderPassSetRunRate, ResourceBinding, ShaderSource, ShaderSourceType,
    ShaderStage, SourceShaderDescriptor,
};
use rend3::renderer::MAX_MATERIALS;

fn shader(path: &str, stage: ShaderStage, with_material_count: bool) -> ShaderSource {
    ShaderSource::Glsl(SourceShaderDescriptor {
        source: ShaderSourceType::File(path.to_string()),
        stage,
        includes: vec![],
        defines: if with_material_count {
            vec![("MATERIAL_COUNT".to_string(), Some("2048".to_string()))]
        } else {
            vec![]
        },
    })
}

fn sorted(names: &[String]) -> Vec<&str> {
    let mut names: Vec<&str> = names.iter().map(|name| name.as_str()).collect();
    names.sort();
    names
}

fn scene_op(vertex: &str, fragment: &str) -> RenderOpDescriptor {
    RenderOpDescriptor {
        input: RenderOpInputType::Models3D,
        vertex: vertex.to_string(),
        fragment: Some(fragment.to_string()),
        bindings: vec![
            ResourceBinding::GeneralData,
            ResourceBinding::ObjectData,
            ResourceBinding::GPU2DTextures,
            ResourceBinding::CameraData,
        ],
    }
}

fn image(base: ImageReference, format: wgpu::TextureFormat) -> ImageResourceDescriptor {
    ImageResourceDescriptor {
        resolution: ImageResolution::Relative(base, glam::Vec2::splat(1.0)),
        format,
        samples: 1,
    }
}

#[test]
fn material_count_is_2048() {
    assert_eq!(MAX_MATERIALS, 2048);
    assert_eq!(MAX_MATERIALS.to_string(), "2048");
}

#[test]
fn default_pipeline_has_two_sets_and_three_passes() {
    let list = default_render_list();
    let sets = list.sets();
    assert_eq!(sets.len(), 2);
    assert_eq!(sets[0].run_rate(), RenderPassSetRunRate::PerShadow);
    assert_eq!(sets[1].run_rate(), RenderPassSetRunRate::Once);

    assert_eq!(sets[0].render_passes().len(), 1);
    assert_eq!(sets[1].render_passes().len(), 2);
    let passes: usize = sets.iter().map(|set| set.render_passes().len()).sum();
    assert_eq!(passes, 3);

    assert_eq!(sets[0].render_passes()[0].ops().len(), 1);
    assert_eq!(sets[1].render_passes()[0].ops().len(), 3);
    assert_eq!(sets[1].render_passes()[1].ops().len(), 1);
}

#[test]
fn default_pipeline_shadow_set() {
    let list = default_render_list();
    let pass = &list.sets()[0].render_passes()[0];
    assert_eq!(
        pass.desc(),
        &RenderPassDescriptor { outputs: vec![], depth: Some(ImageOutputReference::OutputImage) }
    );
    assert_eq!(pass.ops(), &vec![scene_op("depth vert", "depth frag")]);
}

#[test]
fn default_pipeline_frame_set() {
    let list = default_render_list();
    let passes = list.sets()[1].render_passes();

    assert_eq!(
        passes[0].desc(),
        &RenderPassDescriptor {
            outputs: vec![
                ImageOutput {
                    output: ImageOutputReference::Custom("color renderbuffer".to_string()),
                    resolve_target: None,
                },
                ImageOutput {
                    output: ImageOutputReference::Custom("normal buffer".to_string()),
                    resolve_target: None,
                },
            ],
            depth: Some(ImageOutputReference::Custom("depth_buffer".to_string())),
        }
    );
    assert_eq!(
        passes[0].ops(),
        &vec![
            scene_op("depth vert", "depth frag"),
            RenderOpDescriptor {
                input: RenderOpInputType::FullscreenTriangle,
                vertex: "skybox vert".to_string(),
                fragment: Some("skybox frag".to_string()),
                bindings: vec![
                    ResourceBinding::GeneralData,
                    ResourceBinding::SkyboxTexture,
                    ResourceBinding::CameraData,
                ],
            },
            scene_op("opaque vert", "opaque frag"),
        ]
    );

    assert_eq!(
        passes[1].desc(),
        &RenderPassDescriptor {
            outputs: vec![ImageOutput {
                output: ImageOutputReference::OutputImage,
                resolve_target: None,
            }],
            depth: None,
        }
    );
    assert_eq!(
        passes[1].ops(),
        &vec![RenderOpDescriptor {
            input: RenderOpInputType::FullscreenTriangle,
            vertex: "blit vert".to_string(),
            fragment: Some("blit frag".to_string()),
            bindings: vec![
                ResourceBinding::GeneralData,
                ResourceBinding::Custom2DTexture(vec![ImageInputReference::Custom(
                    "color renderbuffer".to_string()
                )]),
            ],
        }]
    );
}

#[test]
fn default_pipeline_shaders() {
    let list = default_render_list();
    let shaders = list.shaders();
    assert_eq!(shaders.len(), 6);
    assert_eq!(
        sorted(shaders.entries().0),
        vec!["blit vert", "depth frag", "depth vert", "opaque frag", "opaque vert", "skybox vert"]
    );
    assert_eq!(
        shaders.get("depth vert"),
        Some(&shader("rend3/shaders/depth.vert", ShaderStage::Vertex, true))
    );
    assert_eq!(
        shaders.get("depth frag"),
        Some(&shader("rend3/shaders/depth.frag", ShaderStage::Fragment, true))
    );
    assert_eq!(
        shaders.get("opaque vert"),
        Some(&shader("rend3/shaders/opaque.vert", ShaderStage::Vertex, true))
    );
    assert_eq!(
        shaders.get("opaque frag"),
        Some(&shader("rend3/shaders/opaque.frag", ShaderStage::Fragment, true))
    );
}

#[test]
fn default_pipeline_keeps_the_last_shader_written_under_a_name() {
    let list = default_render_list();
    let shaders = list.shaders();
    assert_eq!(
        shaders.get("skybox vert"),
        Some(&shader("rend3/shaders/skybox.frag", ShaderStage::Fragment, false))
    );
    assert_eq!(
        shaders.get("blit vert"),
        Some(&shader("rend3/shaders/blit.frag", ShaderStage::Fragment, false))
    );
    assert_eq!(shaders.get("skybox frag"), None);
    assert_eq!(shaders.get("blit frag"), None);
}

#[test]
fn default_pipeline_material_count_define_is_in_decimal() {
    let list = default_render_list();
    match list.shaders().get("opaque frag") {
        Some(ShaderSource::Glsl(desc)) => {
            assert_eq!(desc.defines.len(), 1);
            assert_eq!(desc.defines[0].0, "MATERIAL_COUNT");
            assert_eq!(desc.defines[0].1, Some(MAX_MATERIALS.to_string()));
            assert_eq!(desc.defines[0].1.as_deref(), Some("2048"));
            assert!(desc.includes.is_empty());
        }
        None => panic!("opaque frag is not registered"),
    }
}

#[test]
fn default_pipeline_images() {
    let list = default_render_list();
    let images = list.images();
    assert_eq!(images.len(), 3);
    assert_eq!(
        sorted(images.entries().0),
        vec!["color renderbuffer", "depth_buffer", "normal buffer"]
    );
    assert_eq!(
        images.get("color renderbuffer"),
        Some(&image(ImageReference::OutputImage, wgpu::TextureFormat::Rgba16Float))
    );
    assert_eq!(
        images.get("normal buffer"),
        Some(&image(
            ImageReference::Custom("color renderbuffer".to_string()),
            wgpu::TextureFormat::Rgba16Float
        ))
    );
    assert_eq!(
        images.get("depth_buffer"),
        Some(&image(
            ImageReference::Custom("color renderbuffer".to_string()),
            wgpu::TextureFormat::Depth32Float
        ))
    );
    assert_eq!(images.get("depth buffer"), None);
    for entry in images.entries().1 {
        assert_eq!(entry.samples, 1);
        match &entry.resolution {
            ImageResolution::Relative(_, scale) => {
                assert_eq!(scale.x, 1.0);
                assert_eq!(scale.y, 1.0);
                assert_eq!(scale.x.to_bits(), 0x3f80_0000);
                assert_eq!(scale.y.to_bits(), 0x3f80_0000);
            }
            ImageResolution::Absolute(..) => panic!("the default images are relative"),
        }
    }
}

#[test]
fn default_pipeline_has_no_buffers() {
    let list = default_render_list();
    assert_eq!(list.buffers().len(), 0);
    assert!(list.buffers().entries().0.is_empty());
    assert!(list.buffers().entries().1.is_empty());
}

#[test]
fn default_pipeline_is_the_same_each_time() {
    let first = default_render_list();
    let second = default_render_list();
    for (name, shader) in first.shaders().entries().0.iter().zip(first.shaders().entries().1) {
        assert_eq!(second.shaders().get(name), Some(shader));
    }
    for (name, image) in first.images().entries().0.iter().zip(first.images().entries().1) {
        assert_eq!(second.images().get(name), Some(image));
    }
    assert_eq!(first.shaders().len(), second.shaders().len());
    assert_eq!(first.images().len(), second.images().len());
    assert_eq!(first.sets().len(), second.sets().len());
    assert_eq!(first.references(), second.references());
}
