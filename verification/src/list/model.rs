//! The mathematical model of a render list, and of the calls that build one.
//!
//! A list is modelled by its sets, passes and operations as nested sequences
//! and by its three registries as maps from a name to a descriptor. Each
//! building call of `RenderList` is one transition of this model.

use vstd::prelude::*;
use super::passes::{RenderOpModel, RenderPassDescriptorModel, RenderPassSetRunRate};
use super::resources::{BufferResourceDescriptor, ImageModel, ShaderSourceModel};

verus! {

/// Model of a render pass: what it writes, and its operations in the order
/// in which they were added.
#[verifier::ext_equal]
pub struct RenderPassModel {
    pub desc: RenderPassDescriptorModel,
    pub ops: Seq<RenderOpModel>,
}

/// Model of a render-pass set: its run rate, and its passes in the order in
/// which they were added.
#[verifier::ext_equal]
pub struct RenderPassSetModel {
    pub run_rate: RenderPassSetRunRate,
    pub passes: Seq<RenderPassModel>,
}

/// Model of a render list.
#[verifier::ext_equal]
pub struct RenderListModel {
    pub sets: Seq<RenderPassSetModel>,
    pub shaders: Map<Seq<char>, ShaderSourceModel>,
    pub images: Map<Seq<char>, ImageModel>,
    pub buffers: Map<Seq<char>, BufferResourceDescriptor>,
}

impl RenderPassSetModel {
    /// This set with one more pass at its end, which holds no operation yet.
    pub open spec fn with_pass(self, desc: RenderPassDescriptorModel) -> RenderPassSetModel {
        RenderPassSetModel {
            passes: self.passes.push(RenderPassModel { desc, ops: Seq::empty() }),
            ..self
        }
    }

    /// This set with `op` at the end of its last pass.
    pub open spec fn with_op(self, op: RenderOpModel) -> RenderPassSetModel
        recommends
            self.passes.len() > 0,
    {
        let last = self.passes.last();
        RenderPassSetModel {
            passes: self.passes.update(
                self.passes.len() - 1,
                RenderPassModel { ops: last.ops.push(op), ..last },
            ),
            ..self
        }
    }
}

impl RenderListModel {
    /// The list that nothing was added to.
    pub open spec fn empty() -> RenderListModel {
        RenderListModel {
            sets: Seq::empty(),
            shaders: Map::empty(),
            images: Map::empty(),
            buffers: Map::empty(),
        }
    }

    /// A set has been started, so a pass can be added.
    pub open spec fn has_active_set(self) -> bool {
        self.sets.len() > 0
    }

    /// The set started last holds a pass, so an operation can be added.
    pub open spec fn has_active_pass(self) -> bool {
        self.sets.len() > 0 && self.sets.last().passes.len() > 0
    }

    /// The list after `name` was written in the shader registry.
    pub open spec fn with_shader(self, name: Seq<char>, shader: ShaderSourceModel) -> RenderListModel {
        RenderListModel { shaders: self.shaders.insert(name, shader), ..self }
    }

    /// The list after `name` was written in the image registry.
    pub open spec fn with_image(self, name: Seq<char>, image: ImageModel) -> RenderListModel {
        RenderListModel { images: self.images.insert(name, image), ..self }
    }

    /// The list after `name` was written in the buffer registry.
    pub open spec fn with_buffer(
        self,
        name: Seq<char>,
        buffer: BufferResourceDescriptor,
    ) -> RenderListModel {
        RenderListModel { buffers: self.buffers.insert(name, buffer), ..self }
    }

    /// The list after a new, empty set was started.
    pub open spec fn with_set(self, run_rate: RenderPassSetRunRate) -> RenderListModel {
        RenderListModel {
            sets: self.sets.push(RenderPassSetModel { run_rate, passes: Seq::empty() }),
            ..self
        }
    }

    /// The list after a new, empty pass was added to the set started last.
    pub open spec fn with_pass(self, desc: RenderPassDescriptorModel) -> RenderListModel
        recommends
            self.has_active_set(),
    {
        RenderListModel {
            sets: self.sets.update(self.sets.len() - 1, self.sets.last().with_pass(desc)),
            ..self
        }
    }

    /// The list after `op` was added to the last pass of the set started last.
    pub open spec fn with_op(self, op: RenderOpModel) -> RenderListModel
        recommends
            self.has_active_pass(),
    {
        RenderListModel {
            sets: self.sets.update(self.sets.len() - 1, self.sets.last().with_op(op)),
            ..self
        }
    }
}

} // verus!
