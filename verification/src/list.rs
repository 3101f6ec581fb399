//! The render list: its descriptors, its registries and the calls that
//! build it.

pub mod default;
pub mod model;
pub mod passes;
pub mod registry;
pub mod resolve;
pub mod resources;
pub mod script;
pub mod validate;

pub use self::default::default_render_list;
pub use self::model::{RenderListModel, RenderPassModel, RenderPassSetModel};
pub use self::passes::{
    ImageOutput, ImageOutputModel, RenderOpDescriptor, RenderOpInputType, RenderOpModel,
    RenderPassDescriptor, RenderPassDescriptorModel, RenderPassSetDescriptor,
    RenderPassSetRunRate, ResourceBinding, ResourceBindingModel,
};
pub use self::registry::Registry;
pub use self::resolve::{ImageChain, ImageRoot, ResolveError};
pub use self::resources::{
    BufferResourceDescriptor, ImageInputReference, ImageInputReferenceModel, ImageModel,
    ImageOutputReference, ImageOutputReferenceModel, ImageReference, ImageReferenceModel,
    ImageResolution, ImageResolutionModel, ImageResourceDescriptor, ShaderSource,
    ShaderSourceModel, ShaderSourceType, ShaderSourceTypeModel, ShaderStage,
    SourceShaderDescriptor, SourceShaderDescriptorModel,
};
pub use self::script::BuildStep;
pub use self::validate::{Reference, ReferenceModel, Unresolved};

use vstd::pervasive::unreached;
use vstd::prelude::*;

verus! {

/// One render pass of a list: its outputs and the operations added to it.
pub struct RenderPass {
    desc: RenderPassDescriptor,
    ops: Vec<RenderOpDescriptor>,
}

impl DeepView for RenderPass {
    type V = RenderPassModel;

    closed spec fn deep_view(&self) -> RenderPassModel {
        RenderPassModel { desc: self.desc.deep_view(), ops: self.ops.deep_view() }
    }
}

impl RenderPass {
    /// What the pass writes.
    pub fn desc(&self) -> (desc: &RenderPassDescriptor)
        ensures
            desc.deep_view() == self.deep_view().desc,
    {
        &self.desc
    }

    /// The operations of the pass, in the order in which they were added.
    pub fn ops(&self) -> (ops: &Vec<RenderOpDescriptor>)
        ensures
            ops.deep_view() == self.deep_view().ops,
            ops.len() == self.deep_view().ops.len(),
    {
        &self.ops
    }
}

/// One render-pass set of a list: its run rate and the passes added to it.
pub struct RenderPassSet {
    run_rate: RenderPassSetRunRate,
    render_passes: Vec<RenderPass>,
}

impl DeepView for RenderPassSet {
    type V = RenderPassSetModel;

    closed spec fn deep_view(&self) -> RenderPassSetModel {
        RenderPassSetModel { run_rate: self.run_rate, passes: self.render_passes.deep_view() }
    }
}

impl RenderPassSet {
    /// How often the passes of the set run.
    pub fn run_rate(&self) -> (run_rate: RenderPassSetRunRate)
        ensures
            run_rate == self.deep_view().run_rate,
    {
        self.run_rate
    }

    /// The passes of the set, in the order in which they were added.
    pub fn render_passes(&self) -> (passes: &Vec<RenderPass>)
        ensures
            passes.deep_view() == self.deep_view().passes,
            passes.len() == self.deep_view().passes.len(),
    {
        &self.render_passes
    }
}

/// Why a pass or an operation could not be added: the call came before the
/// call that opens what it adds to.
#[derive(Debug, Clone, Copy, PartialEq, Eq)]
pub enum SequencingError {
    /// No set has been started, so there is none to hold a pass.
    NoActiveSet,
    /// The set started last holds no pass, so there is none to hold an
    /// operation.
    NoActivePass,
}

impl SequencingError {
    /// The diagnostic for the error, which names what was missing.
    pub fn describe(&self) -> (text: &'static str)
        ensures
            text@ == (match self {
                SequencingError::NoActiveSet => "Added render pass with no active render pass sets"@,
                SequencingError::NoActivePass => "Added render op with no active render pass"@,
            }),
    {
        match self {
            SequencingError::NoActiveSet => "Added render pass with no active render pass sets",
            SequencingError::NoActivePass => "Added render op with no active render pass",
        }
    }
}

/// The description of one frame's pipeline: render-pass sets in the order in
/// which they run, and the shaders, images and buffers they name.
pub struct RenderList {
    sets: Vec<RenderPassSet>,
    shaders: Registry<ShaderSource>,
    images: Registry<ImageResourceDescriptor>,
    buffers: Registry<BufferResourceDescriptor>,
}

impl View for RenderList {
    type V = RenderListModel;

    closed spec fn view(&self) -> RenderListModel {
        RenderListModel {
            sets: self.sets.deep_view(),
            shaders: self.shaders@,
            images: self.images@,
            buffers: self.buffers@,
        }
    }
}

impl RenderList {
    /// A list with no set and with empty registries.
    pub fn new() -> (list: Self)
        ensures
            list@ == RenderListModel::empty(),
    {
        let list = RenderList {
            sets: Vec::new(),
            shaders: Registry::new(),
            images: Registry::new(),
            buffers: Registry::new(),
        };
        assert(list.sets.deep_view() =~= Seq::empty());
        list
    }

    /// Starts a new set, which holds no pass yet. Passes added from now on go
    /// to this set.
    pub fn start_render_pass_set(&mut self, desc: RenderPassSetDescriptor)
        ensures
            final(self)@ == old(self)@.with_set(desc.run_rate),
    {
        self.sets.push(RenderPassSet { run_rate: desc.run_rate, render_passes: Vec::new() });
        assert(self.sets.deep_view() =~= old(self).sets.deep_view().push(
            RenderPassSetModel { run_rate: desc.run_rate, passes: Seq::empty() },
        )) by {
            assert(self.sets@.last().render_passes.deep_view() =~= Seq::empty());
        }
    }

    /// Writes `shader` under `name` in the shader registry. A shader that was
    /// there under the same name is replaced.
    pub fn create_shader(&mut self, name: &str, shader: ShaderSource)
        ensures
            final(self)@ == old(self)@.with_shader(name@, shader.deep_view()),
    {
        self.shaders.insert(name, shader);
    }

    /// Writes `image` under `name` in the image registry. An image that was
    /// there under the same name is replaced.
    pub fn create_image(&mut self, name: &str, image: ImageResourceDescriptor)
        ensures
            final(self)@ == old(self)@.with_image(name@, image.deep_view()),
    {
        self.images.insert(name, image);
    }

    /// Writes `buffer` under `name` in the buffer registry. A buffer that was
    /// there under the same name is replaced.
    pub fn create_buffer(&mut self, name: &str, buffer: BufferResourceDescriptor)
        ensures
            final(self)@ == old(self)@.with_buffer(name@, buffer.deep_view()),
    {
        self.buffers.insert(name, buffer);
    }

    /// Adds a new pass, which holds no operation yet, to the set started
    /// last. Operations added from now on go to this pass.
    ///
    /// A set must have been started: to add a pass to a list without one is
    /// a mistake in the calling code, which the precondition rules out. A
    /// caller that cannot know calls [`RenderList::try_add_render_pass`].
    pub fn add_render_pass(&mut self, desc: RenderPassDescriptor)
        requires
            old(self)@.has_active_set(),
        ensures
            final(self)@ == old(self)@.with_pass(desc.deep_view()),
    {
        match self.sets.last_mut() {
            Some(set) => {
                set.render_passes.push(RenderPass { desc, ops: Vec::new() });
            },
            None => unreached(),
        }
        proof {
            let last = old(self).sets@.len() - 1;
            let before = old(self).sets@[last];
            let after = self.sets@[last];
            assert(after.render_passes@.last().ops.deep_view() =~= Seq::empty());
            assert(after.deep_view().passes =~= before.deep_view().with_pass(
                desc.deep_view(),
            ).passes);
            assert(self.sets.deep_view() =~= old(self).sets.deep_view().update(
                last,
                before.deep_view().with_pass(desc.deep_view()),
            ));
        }
    }

    /// Adds an operation to the last pass of the set started last.
    ///
    /// The set started last must hold a pass, whatever earlier sets hold. A
    /// caller that cannot know calls [`RenderList::try_add_render_op`].
    pub fn add_render_op(&mut self, desc: RenderOpDescriptor)
        requires
            old(self)@.has_active_pass(),
        ensures
            final(self)@ == old(self)@.with_op(desc.deep_view()),
    {
        match self.sets.last_mut() {
            Some(set) => {
                match set.render_passes.last_mut() {
                    Some(pass) => {
                        pass.ops.push(desc);
                    },
                    None => unreached(),
                }
            },
            None => unreached(),
        }
        proof {
            let last = old(self).sets@.len() - 1;
            let before = old(self).sets@[last];
            let after = self.sets@[last];
            let last_pass = before.render_passes@.len() - 1;
            assert(after.render_passes@[last_pass].ops.deep_view()
                =~= before.render_passes@[last_pass].ops.deep_view().push(desc.deep_view()));
            assert(after.deep_view().passes =~= before.deep_view().with_op(
                desc.deep_view(),
            ).passes);
            assert(self.sets.deep_view() =~= old(self).sets.deep_view().update(
                last,
                before.deep_view().with_op(desc.deep_view()),
            ));
        }
    }

    /// Whether a set has been started, so that [`RenderList::add_render_pass`]
    /// may be called.
    pub fn has_active_set(&self) -> (active: bool)
        ensures
            active == self@.has_active_set(),
    {
        self.sets.len() > 0
    }

    /// Whether the set started last holds a pass, so that
    /// [`RenderList::add_render_op`] may be called.
    pub fn has_active_pass(&self) -> (active: bool)
        ensures
            active == self@.has_active_pass(),
    {
        match self.sets.last() {
            Some(set) => set.render_passes.len() > 0,
            None => false,
        }
    }

    /// Adds a pass as [`RenderList::add_render_pass`] does, if a set has been
    /// started. If none has, the list stays as it is and the error says so.
    pub fn try_add_render_pass(&mut self, desc: RenderPassDescriptor) -> (result: Result<
        (),
        SequencingError,
    >)
        ensures
            match result {
                Ok(_) => old(self)@.has_active_set() && final(self)@ == old(self)@.with_pass(
                    desc.deep_view(),
                ),
                Err(SequencingError::NoActiveSet) => !old(self)@.has_active_set() && final(self)@
                    == old(self)@,
                Err(SequencingError::NoActivePass) => false,
            },
    {
        if !self.has_active_set() {
            return Err(SequencingError::NoActiveSet);
        }
        self.add_render_pass(desc);
        Ok(())
    }

    /// Adds an operation as [`RenderList::add_render_op`] does, if the set
    /// started last holds a pass. If no set has been started, or if the set
    /// started last holds no pass, whatever earlier sets hold, the list stays
    /// as it is and the error says which.
    pub fn try_add_render_op(&mut self, desc: RenderOpDescriptor) -> (result: Result<
        (),
        SequencingError,
    >)
        ensures
            match result {
                Ok(_) => old(self)@.has_active_pass() && final(self)@ == old(self)@.with_op(
                    desc.deep_view(),
                ),
                Err(SequencingError::NoActiveSet) => !old(self)@.has_active_set() && final(self)@
                    == old(self)@,
                Err(SequencingError::NoActivePass) => old(self)@.has_active_set() && !old(
                    self,
                )@.has_active_pass() && final(self)@ == old(self)@,
            },
    {
        if !self.has_active_set() {
            return Err(SequencingError::NoActiveSet);
        }
        if !self.has_active_pass() {
            return Err(SequencingError::NoActivePass);
        }
        self.add_render_op(desc);
        Ok(())
    }

    /// The sets of the list, in the order in which they were started.
    pub fn sets(&self) -> (sets: &Vec<RenderPassSet>)
        ensures
            sets.deep_view() == self@.sets,
            sets.len() == self@.sets.len(),
    {
        &self.sets
    }

    /// The shader registry.
    pub fn shaders(&self) -> (shaders: &Registry<ShaderSource>)
        ensures
            shaders@ == self@.shaders,
    {
        &self.shaders
    }

    /// The image registry.
    pub fn images(&self) -> (images: &Registry<ImageResourceDescriptor>)
        ensures
            images@ == self@.images,
    {
        &self.images
    }

    /// The buffer registry.
    pub fn buffers(&self) -> (buffers: &Registry<BufferResourceDescriptor>)
        ensures
            buffers@ == self@.buffers,
    {
        &self.buffers
    }
}

} // verus!
