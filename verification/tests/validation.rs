use rend3::list::{
    default_render_list, ImageInputReference, ImageOutput, ImageOutputReference, ImageReference,
    ImageResolution, ImageResourceDescriptor, Reference, RenderList, RenderOpDescriptor,
    RenderOpInputType, RenderPassDescriptor, RenderPassSetDescriptor, RenderPassSetRunRate,
    ResourceBinding, ShaderSource, ShaderSourceType, ShaderStage, SourceShaderDescriptor,
    Unresolved,
};

fn shader(path: &str) -> ShaderSource {
    ShaderSource::Glsl(SourceShaderDescriptor {
        source: ShaderSourceType::File(path.to_string()),
        stage: ShaderStage::Vertex,
        includes: vec![],
        defines: vec![],
    })
}

fn absolute() -> ImageResourceDescriptor {
    ImageResourceDescriptor {
        resolution: ImageResolution::Absolute(16, 16),
        format: wgpu::TextureFormat::Rgba8Unorm,
        samples: 1,
    }
}

fn relative_to(name: &str) -> ImageResourceDescriptor {
    ImageResourceDescriptor {
        resolution: ImageResolution::Relative(
            ImageReference::Custom(name.to_string()),
            glam::Vec2::splat(2.0),
        ),
        format: wgpu::TextureFormat::Rgba8Unorm,
        samples: 1,
    }
}

fn custom(name: &str) -> ImageOutputReference {
    ImageOutputReference::Custom(name.to_string())
}

fn shader_ref(name: &str) -> Reference {
    Reference::Shader(name.to_string())
}

fn image_ref(name: &str) -> Reference {
    Reference::Image(name.to_string())
}

/// One set with one pass that writes `color` (resolved to `resolve`) and
/// `depth`, and one operation that reads `texture`.
fn small_list() -> RenderList {
    let mut list = RenderList::new();
    list.start_render_pass_set(RenderPassSetDescriptor { run_rate: RenderPassSetRunRate::Once });
    list.add_render_pass(RenderPassDescriptor {
        outputs: vec![
            ImageOutput { output: custom("color"), resolve_target: Some(custom("resolve")) },
            ImageOutput { output: ImageOutputReference::OutputImage, resolve_target: None },
        ],
        depth: Some(custom("depth")),
    });
    list.add_render_op(RenderOpDescriptor {
        input: RenderOpInputType::Models3D,
        vertex: "vert".to_string(),
        fragment: Some("frag".to_string()),
        bindings: vec![
            ResourceBinding::GeneralData,
            ResourceBinding::Custom2DTexture(vec![
                ImageInputReference::Custom("texture".to_string()),
                ImageInputReference::Custom("color".to_string()),
            ]),
            ResourceBinding::CameraData,
        ],
    });
    list.add_render_op(RenderOpDescriptor {
        input: RenderOpInputType::FullscreenTriangle,
        vertex: "vert".to_string(),
        fragment: None,
        bindings: vec![],
    });
    list
}

fn register_all(list: &mut RenderList) {
    list.create_shader("vert", shader("a.vert"));
    list.create_shader("frag", shader("a.frag"));
    for name in ["color", "resolve", "depth", "texture"] {
        list.create_image(name, absolute());
    }
}

#[test]
fn empty_list_is_valid() {
    let list = RenderList::new();
    assert!(list.references().is_empty());
    assert_eq!(list.validate(), Ok(()));
}

#[test]
fn references_come_in_the_order_of_use() {
    let list = small_list();
    assert_eq!(
        list.references(),
        vec![
            image_ref("color"),
            image_ref("resolve"),
            image_ref("depth"),
            shader_ref("vert"),
            shader_ref("frag"),
            image_ref("texture"),
            image_ref("color"),
            shader_ref("vert"),
        ]
    );
}

#[test]
fn references_go_set_by_set_and_pass_by_pass() {
    let mut list = RenderList::new();
    for (set, passes) in [2usize, 0, 1].iter().enumerate() {
        list.start_render_pass_set(RenderPassSetDescriptor {
            run_rate: RenderPassSetRunRate::PerShadow,
        });
        for pass in 0..*passes {
            list.add_render_pass(RenderPassDescriptor {
                outputs: vec![],
                depth: Some(custom(&format!("depth {} {}", set, pass))),
            });
            list.add_render_op(RenderOpDescriptor {
                input: RenderOpInputType::Models3D,
                vertex: format!("vert {} {}", set, pass),
                fragment: None,
                bindings: vec![ResourceBinding::ObjectData],
            });
        }
    }
    assert_eq!(
        list.references(),
        vec![
            image_ref("depth 0 0"),
            shader_ref("vert 0 0"),
            image_ref("depth 0 1"),
            shader_ref("vert 0 1"),
            image_ref("depth 2 0"),
            shader_ref("vert 2 0"),
        ]
    );
}

#[test]
fn list_with_everything_registered_is_valid() {
    let mut list = small_list();
    register_all(&mut list);
    assert_eq!(list.validate(), Ok(()));
}

#[test]
fn first_unregistered_name_is_reported() {
    let mut list = small_list();
    assert_eq!(list.validate(), Err(Unresolved::Image("color".to_string())));
    list.create_image("color", absolute());
    assert_eq!(list.validate(), Err(Unresolved::Image("resolve".to_string())));
    list.create_image("resolve", absolute());
    list.create_image("depth", absolute());
    assert_eq!(list.validate(), Err(Unresolved::Shader("vert".to_string())));
    list.create_shader("vert", shader("a.vert"));
    assert_eq!(list.validate(), Err(Unresolved::Shader("frag".to_string())));
    list.create_shader("frag", shader("a.frag"));
    assert_eq!(list.validate(), Err(Unresolved::Image("texture".to_string())));
    list.create_image("texture", absolute());
    assert_eq!(list.validate(), Ok(()));
}

#[test]
fn shader_and_image_names_are_looked_up_in_their_own_registry() {
    let mut list = small_list();
    register_all(&mut list);
    let mut other = small_list();
    // The names are all there, but in the wrong registries.
    for name in ["color", "resolve", "depth", "texture"] {
        other.create_shader(name, shader("x"));
    }
    other.create_image("vert", absolute());
    other.create_image("frag", absolute());
    assert_eq!(list.validate(), Ok(()));
    assert_eq!(other.validate(), Err(Unresolved::Image("color".to_string())));
}

#[test]
fn image_relative_to_an_unregistered_image_is_reported() {
    let mut list = small_list();
    register_all(&mut list);
    list.create_image("half", relative_to("gone"));
    assert_eq!(list.validate(), Err(Unresolved::Image("gone".to_string())));
    list.create_image("gone", absolute());
    assert_eq!(list.validate(), Ok(()));
}

#[test]
fn image_in_a_cycle_is_reported() {
    let mut list = RenderList::new();
    list.create_image("fine", absolute());
    list.create_image("loop", relative_to("loop"));
    assert_eq!(list.validate(), Err(Unresolved::CyclicImage("loop".to_string())));
    list.create_image("loop", relative_to("fine"));
    assert_eq!(list.validate(), Ok(()));
}

#[test]
fn unused_registrations_do_not_matter() {
    let mut list = RenderList::new();
    list.create_shader("unused", shader("u.vert"));
    list.create_image("unused", absolute());
    list.create_buffer("unused", rend3::list::BufferResourceDescriptor { size: 1 });
    assert_eq!(list.validate(), Ok(()));
}

#[test]
fn default_pipeline_names_an_unregistered_shader() {
    let list = default_render_list();
    assert_eq!(list.validate(), Err(Unresolved::Shader("skybox frag".to_string())));
}

#[test]
fn default_pipeline_writes_only_registered_images() {
    let list = default_render_list();
    for reference in list.references() {
        if let Reference::Image(name) = reference {
            assert!(list.images().get(&name).is_some());
        }
    }
    let depth = list.sets()[1].render_passes()[0].desc().depth.clone();
    match depth {
        Some(ImageOutputReference::Custom(name)) => {
            assert_eq!(
                list.images().get(&name).unwrap().format,
                wgpu::TextureFormat::Depth32Float
            );
        }
        _ => panic!("the first pass of the frame set writes depth to a registered image"),
    }
}

#[test]
fn default_pipeline_references() {
    let list = default_render_list();
    assert_eq!(
        list.references(),
        vec![
            shader_ref("depth vert"),
            shader_ref("depth frag"),
            image_ref("color renderbuffer"),
            image_ref("normal buffer"),
            image_ref("depth_buffer"),
            shader_ref("depth vert"),
            shader_ref("depth frag"),
            shader_ref("skybox vert"),
            shader_ref("skybox frag"),
            shader_ref("opaque vert"),
            shader_ref("opaque frag"),
            shader_ref("blit vert"),
            shader_ref("blit frag"),
            image_ref("color renderbuffer"),
        ]
    );
}
