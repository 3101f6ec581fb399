use rend3::list::{
    default_render_list, ImageChain, ImageOutputReference, ImageReference, ImageResolution, ImageResourceDescriptor,
    ImageRoot, RenderList, ResolveError,
};

fn relative_to(base: ImageReference) -> ImageResourceDescriptor {
    ImageResourceDescriptor {
        resolution: ImageResolution::Relative(base, glam::Vec2::splat(1.0)),
        format: wgpu::TextureFormat::Rgba16Float,
        samples: 1,
    }
}

fn relative_to_image(name: &str) -> ImageResourceDescriptor {
    relative_to(ImageReference::Custom(name.to_string()))
}

fn absolute(width: u32, height: u32) -> ImageResourceDescriptor {
    ImageResourceDescriptor {
        resolution: ImageResolution::Absolute(width, height),
        format: wgpu::TextureFormat::Depth32Float,
        samples: 1,
    }
}

fn names(names: &[&str]) -> Vec<String> {
    names.iter().map(|name| name.to_string()).collect()
}

#[test]
fn two_hop_chain_ends_at_the_output_image() {
    let mut list = RenderList::new();
    list.create_image("color renderbuffer", relative_to(ImageReference::OutputImage));
    list.create_image("normal buffer", relative_to_image("color renderbuffer"));
    list.create_image("depth_buffer", relative_to_image("color renderbuffer"));

    let chain = list.resolve_image("normal buffer").unwrap();
    assert_eq!(chain.root, ImageRoot::OutputImage);
    assert_eq!(chain.names, names(&["normal buffer", "color renderbuffer"]));

    assert_eq!(
        list.resolve_image("color renderbuffer"),
        Ok(ImageChain { names: names(&["color renderbuffer"]), root: ImageRoot::OutputImage })
    );
}

#[test]
fn chain_ends_at_an_absolute_resolution() {
    let mut list = RenderList::new();
    list.create_image("a", relative_to_image("b"));
    list.create_image("b", relative_to_image("c"));
    list.create_image("c", absolute(800, 600));

    assert_eq!(
        list.resolve_image("a"),
        Ok(ImageChain { names: names(&["a", "b", "c"]), root: ImageRoot::Absolute(800, 600) })
    );
    assert_eq!(
        list.resolve_image("c"),
        Ok(ImageChain { names: names(&["c"]), root: ImageRoot::Absolute(800, 600) })
    );
}

#[test]
fn chain_passes_no_image_twice() {
    let mut list = RenderList::new();
    let count = 50;
    for i in 0..count {
        list.create_image(&format!("image {}", i), relative_to_image(&format!("image {}", i + 1)));
    }
    list.create_image(&format!("image {}", count), absolute(1, 2));

    let chain = list.resolve_image("image 0").unwrap();
    assert_eq!(chain.root, ImageRoot::Absolute(1, 2));
    assert_eq!(chain.names.len(), count + 1);
    for (i, name) in chain.names.iter().enumerate() {
        assert_eq!(name, &format!("image {}", i));
    }
    let mut sorted = chain.names.clone();
    sorted.sort();
    sorted.dedup();
    assert_eq!(sorted.len(), chain.names.len());
}

#[test]
fn unregistered_image_is_undefined() {
    let list = RenderList::new();
    assert_eq!(list.resolve_image("nothing"), Err(ResolveError::Undefined("nothing".to_string())));
}

#[test]
fn chain_to_an_unregistered_base_names_the_base() {
    let mut list = RenderList::new();
    list.create_image("a", relative_to_image("b"));
    list.create_image("b", relative_to_image("gone"));
    list.create_image("unrelated", absolute(1, 1));

    assert_eq!(list.resolve_image("a"), Err(ResolveError::Undefined("gone".to_string())));
    assert_eq!(list.resolve_image("b"), Err(ResolveError::Undefined("gone".to_string())));
}

#[test]
fn image_relative_to_itself_is_cyclic() {
    let mut list = RenderList::new();
    list.create_image("self", relative_to_image("self"));
    assert_eq!(list.resolve_image("self"), Err(ResolveError::Cyclic));
}

#[test]
fn chain_that_runs_into_a_cycle_is_cyclic() {
    let mut list = RenderList::new();
    list.create_image("entry", relative_to_image("a"));
    list.create_image("a", relative_to_image("b"));
    list.create_image("b", relative_to_image("c"));
    list.create_image("c", relative_to_image("a"));
    list.create_image("fine", absolute(3, 4));

    assert_eq!(list.resolve_image("entry"), Err(ResolveError::Cyclic));
    assert_eq!(list.resolve_image("a"), Err(ResolveError::Cyclic));
    assert_eq!(list.resolve_image("c"), Err(ResolveError::Cyclic));
    assert_eq!(
        list.resolve_image("fine"),
        Ok(ImageChain { names: names(&["fine"]), root: ImageRoot::Absolute(3, 4) })
    );
}

#[test]
fn longest_chain_the_registry_allows_still_resolves() {
    // Every image of the registry is on the chain.
    let mut list = RenderList::new();
    list.create_image("a", relative_to_image("b"));
    list.create_image("b", relative_to(ImageReference::OutputImage));
    assert_eq!(
        list.resolve_image("a"),
        Ok(ImageChain { names: names(&["a", "b"]), root: ImageRoot::OutputImage })
    );
}

#[test]
fn overwriting_an_image_changes_how_it_resolves() {
    let mut list = RenderList::new();
    list.create_image("a", relative_to_image("a"));
    assert_eq!(list.resolve_image("a"), Err(ResolveError::Cyclic));
    list.create_image("a", absolute(5, 6));
    assert_eq!(
        list.resolve_image("a"),
        Ok(ImageChain { names: names(&["a"]), root: ImageRoot::Absolute(5, 6) })
    );
}

#[test]
fn images_of_the_default_pipeline_resolve_to_the_output_image() {
    let list = default_render_list();
    assert_eq!(
        list.resolve_image("depth_buffer"),
        Ok(ImageChain {
            names: names(&["depth_buffer", "color renderbuffer"]),
            root: ImageRoot::OutputImage,
        })
    );
    assert_eq!(
        list.resolve_image("normal buffer"),
        Ok(ImageChain {
            names: names(&["normal buffer", "color renderbuffer"]),
            root: ImageRoot::OutputImage,
        })
    );
    assert_eq!(
        list.resolve_image("depth buffer"),
        Err(ResolveError::Undefined("depth buffer".to_string()))
    );
    let written = list.sets()[1].render_passes()[0].desc();
    assert_eq!(written.depth, Some(ImageOutputReference::Custom("depth_buffer".to_string())));
}
