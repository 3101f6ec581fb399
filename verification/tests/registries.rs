use rend3::list::{
    BufferResourceDescriptor, ImageOutput, ImageOutputReference, ImageReference, ImageResolution,
    ImageResourceDescriptor, Registry, RenderList, RenderOpDescriptor, RenderOpInputType,
    RenderPassDescriptor, RenderPassSetDescriptor, RenderPassSetRunRate, ShaderSource,
    ShaderSourceType, ShaderStage, SourceShaderDescriptor,
};

fn shader(path: &str, stage: ShaderStage) -> ShaderSource {
    ShaderSource::Glsl(SourceShaderDescriptor {
        source: ShaderSourceType::File(path.to_string()),
        stage,
        includes: vec![],
        defines: vec![],
    })
}

fn image(width: u32, height: u32) -> ImageResourceDescriptor {
    ImageResourceDescriptor {
        resolution: ImageResolution::Absolute(width, height),
        format: wgpu::TextureFormat::Rgba8Unorm,
        samples: 1,
    }
}

#[test]
fn new_list_is_empty() {
    let list = RenderList::new();
    assert_eq!(list.sets().len(), 0);
    assert_eq!(list.shaders().len(), 0);
    assert_eq!(list.images().len(), 0);
    assert_eq!(list.buffers().len(), 0);
    assert!(list.shaders().get("anything").is_none());
    assert!(!list.has_active_set());
    assert!(!list.has_active_pass());
}

#[test]
fn last_write_to_a_name_wins() {
    let mut list = RenderList::new();
    list.create_shader("a", shader("first.vert", ShaderStage::Vertex));
    list.create_shader("b", shader("other.frag", ShaderStage::Fragment));
    list.create_shader("a", shader("second.comp", ShaderStage::Compute));

    assert_eq!(list.shaders().get("a"), Some(&shader("second.comp", ShaderStage::Compute)));
    assert_eq!(list.shaders().get("b"), Some(&shader("other.frag", ShaderStage::Fragment)));
    assert_eq!(list.shaders().get("c"), None);
}

#[test]
fn registry_size_is_the_number_of_distinct_names() {
    let mut list = RenderList::new();
    let names = ["x", "y", "x", "z", "y", "x", "x"];
    for (i, name) in names.iter().enumerate() {
        list.create_buffer(name, BufferResourceDescriptor { size: i as u64 });
    }
    assert_eq!(list.buffers().len(), 3);
    assert_eq!(list.buffers().get("x"), Some(&BufferResourceDescriptor { size: 6 }));
    assert_eq!(list.buffers().get("y"), Some(&BufferResourceDescriptor { size: 4 }));
    assert_eq!(list.buffers().get("z"), Some(&BufferResourceDescriptor { size: 3 }));
}

#[test]
fn the_three_registries_are_separate() {
    let mut list = RenderList::new();
    list.create_shader("shared", shader("s.vert", ShaderStage::Vertex));
    list.create_image("shared", image(640, 480));
    list.create_image("only image", image(1, 1));
    list.create_buffer("shared", BufferResourceDescriptor { size: 16 });

    assert_eq!(list.shaders().len(), 1);
    assert_eq!(list.images().len(), 2);
    assert_eq!(list.buffers().len(), 1);
    assert_eq!(list.images().get("shared"), Some(&image(640, 480)));
    assert_eq!(list.buffers().get("shared"), Some(&BufferResourceDescriptor { size: 16 }));
    assert!(list.shaders().get("only image").is_none());
    assert!(list.buffers().get("only image").is_none());
}

#[test]
fn names_are_compared_by_their_characters() {
    let mut list = RenderList::new();
    let owned = String::from("render") + "buffer";
    list.create_image(&owned, image(2, 3));
    list.create_image("renderbuffer", image(4, 5));
    list.create_image("renderbuffer ", image(6, 7));
    list.create_image("", image(8, 9));

    assert_eq!(list.images().len(), 3);
    assert_eq!(list.images().get("renderbuffer"), Some(&image(4, 5)));
    assert_eq!(list.images().get("renderbuffer "), Some(&image(6, 7)));
    assert_eq!(list.images().get(""), Some(&image(8, 9)));
    assert_eq!(list.images().get("Renderbuffer"), None);
}

#[test]
fn registry_lists_each_name_once_beside_its_entry() {
    let mut registry: Registry<BufferResourceDescriptor> = Registry::new();
    registry.insert("b", BufferResourceDescriptor { size: 1 });
    registry.insert("a", BufferResourceDescriptor { size: 2 });
    registry.insert("b", BufferResourceDescriptor { size: 3 });
    registry.insert("c", BufferResourceDescriptor { size: 4 });

    assert_eq!(registry.len(), 3);
    let (names, entries) = registry.entries();
    assert_eq!(names.len(), 3);
    assert_eq!(entries.len(), 3);
    let mut listed: Vec<(String, u64)> =
        names.iter().cloned().zip(entries.iter().map(|entry| entry.size)).collect();
    listed.sort();
    assert_eq!(
        listed,
        vec![("a".to_string(), 2), ("b".to_string(), 3), ("c".to_string(), 4)]
    );
    for (name, entry) in names.iter().zip(entries) {
        assert_eq!(registry.get(name), Some(entry));
    }
}

#[test]
fn empty_registry_lists_nothing() {
    let registry: Registry<BufferResourceDescriptor> = Registry::new();
    let (names, entries) = registry.entries();
    assert!(names.is_empty());
    assert!(entries.is_empty());
    assert_eq!(registry.len(), 0);
    assert_eq!(registry.get(""), None);
}

#[test]
fn registries_may_be_filled_after_the_passes_that_name_them() {
    let mut list = RenderList::new();
    list.start_render_pass_set(RenderPassSetDescriptor { run_rate: RenderPassSetRunRate::Once });
    list.add_render_pass(RenderPassDescriptor {
        outputs: vec![ImageOutput {
            output: ImageOutputReference::Custom("half".to_string()),
            resolve_target: None,
        }],
        depth: None,
    });
    list.add_render_op(RenderOpDescriptor {
        input: RenderOpInputType::FullscreenTriangle,
        vertex: "late".to_string(),
        fragment: None,
        bindings: vec![],
    });
    assert_eq!(list.images().len(), 0);
    assert_eq!(list.shaders().len(), 0);

    list.create_image(
        "half",
        ImageResourceDescriptor {
            resolution: ImageResolution::Relative(
                ImageReference::Custom("full".to_string()),
                glam::Vec2::splat(0.5),
            ),
            format: wgpu::TextureFormat::Rgba16Float,
            samples: 4,
        },
    );
    list.create_image("full", image(1920, 1080));
    list.create_shader("late", shader("late.vert", ShaderStage::Vertex));

    let half = list.images().get("half").unwrap();
    assert_eq!(
        half.resolution,
        ImageResolution::Relative(ImageReference::Custom("full".to_string()), glam::Vec2::new(0.5, 0.5))
    );
    assert_eq!(half.format, wgpu::TextureFormat::Rgba16Float);
    assert_eq!(half.samples, 4);
    assert_eq!(list.images().len(), 2);
    assert_eq!(list.sets()[0].render_passes()[0].ops().len(), 1);
    assert_eq!(list.validate(), Ok(()));
}

#[test]
fn many_names_stay_apart() {
    let mut list = RenderList::new();
    for round in 0..3u64 {
        for i in 0..200u64 {
            list.create_buffer(&format!("buffer {}", i), BufferResourceDescriptor { size: round * 1000 + i });
        }
    }
    assert_eq!(list.buffers().len(), 200);
    for i in 0..200u64 {
        assert_eq!(
            list.buffers().get(&format!("buffer {}", i)),
            Some(&BufferResourceDescriptor { size: 2000 + i })
        );
    }
    let (names, entries) = list.buffers().entries();
    assert_eq!(names.len(), 200);
    assert_eq!(entries.len(), 200);
    let mut sorted = names.clone();
    sorted.sort();
    sorted.dedup();
    assert_eq!(sorted.len(), 200);
}
