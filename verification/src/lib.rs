//! A declarative description of one frame's rendering pipeline.
//!
//! A [`list::RenderList`] records which shaders, images and buffers exist
//! and in which order draw operations run against them. Nothing here touches
//! a GPU: the finished list is a plain value that an executor walks later.
//!
//! A list is built by one linear script of calls: declare resources, start a
//! set, add a pass to it, add operations to the pass. Names are not looked
//! up while a list is built, so that a resource may be declared after its
//! users; [`list::RenderList::validate`] looks them up in the finished list.
//!
//! The functions are verified against a model of the list,
//! [`list::RenderListModel`]. Taken on trust are the hash map of `fnv`
//! behind the registries, the constant `glam::Vec2::ONE` and how std prints
//! an integer; each stands behind a small function that says what is
//! expected of it.

pub mod list;
pub mod renderer;
