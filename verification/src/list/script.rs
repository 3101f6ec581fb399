//! Building calls as data, and what holds of every sequence of them.
//!
//! A [`BuildStep`] is one call of the building interface with the models of
//! its arguments, and [`RenderListModel::after`] is what the contract of that
//! call says of the list. Replaying a sequence of steps on the model of a
//! list gives the model of the list that the calls build, so a statement
//! about every sequence of steps is a statement about every list that can be
//! built.

use vstd::prelude::*;
use super::model::RenderListModel;
use super::passes::{RenderOpModel, RenderPassDescriptorModel, RenderPassSetRunRate};
use super::registry::written;
use super::resources::{BufferResourceDescriptor, ImageModel, ShaderSourceModel};

verus! {

/// One call of the building interface.
pub enum BuildStep {
    /// `create_shader` with this name and shader.
    CreateShader(Seq<char>, ShaderSourceModel),
    /// `create_image` with this name and image.
    CreateImage(Seq<char>, ImageModel),
    /// `create_buffer` with this name and buffer.
    CreateBuffer(Seq<char>, BufferResourceDescriptor),
    /// `start_render_pass_set` with this run rate.
    StartSet(RenderPassSetRunRate),
    /// `try_add_render_pass` with this descriptor, or `add_render_pass`
    /// where a set has been started.
    AddPass(RenderPassDescriptorModel),
    /// `try_add_render_op` with this operation, or `add_render_op` where the
    /// set started last holds a pass.
    AddOp(RenderOpModel),
}

impl BuildStep {
    /// What the step writes in the shader registry, if it writes there.
    pub open spec fn shader_write(self) -> Option<(Seq<char>, ShaderSourceModel)> {
        match self {
            BuildStep::CreateShader(name, shader) => Some((name, shader)),
            _ => None,
        }
    }

    /// What the step writes in the image registry, if it writes there.
    pub open spec fn image_write(self) -> Option<(Seq<char>, ImageModel)> {
        match self {
            BuildStep::CreateImage(name, image) => Some((name, image)),
            _ => None,
        }
    }

    /// What the step writes in the buffer registry, if it writes there.
    pub open spec fn buffer_write(self) -> Option<(Seq<char>, BufferResourceDescriptor)> {
        match self {
            BuildStep::CreateBuffer(name, buffer) => Some((name, buffer)),
            _ => None,
        }
    }
}

impl RenderListModel {
    /// The list after one step. A pass with no set to go to, and an
    /// operation with no pass to go to, leave the list as it is.
    pub open spec fn after(self, step: BuildStep) -> RenderListModel {
        match step {
            BuildStep::CreateShader(name, shader) => self.with_shader(name, shader),
            BuildStep::CreateImage(name, image) => self.with_image(name, image),
            BuildStep::CreateBuffer(name, buffer) => self.with_buffer(name, buffer),
            BuildStep::StartSet(run_rate) => self.with_set(run_rate),
            BuildStep::AddPass(desc) => if self.has_active_set() {
                self.with_pass(desc)
            } else {
                self
            },
            BuildStep::AddOp(op) => if self.has_active_pass() {
                self.with_op(op)
            } else {
                self
            },
        }
    }

    /// The list after all of `steps`, first to last.
    pub open spec fn after_all(self, steps: Seq<BuildStep>) -> RenderListModel
        decreases steps.len(),
    {
        if steps.len() == 0 {
            self
        } else {
            self.after_all(steps.drop_last()).after(steps.last())
        }
    }

    /// The pass at `pass` in the set at `set` exists and is no longer the one
    /// that operations go to.
    pub open spec fn pass_is_closed(self, set: int, pass: int) -> bool {
        &&& 0 <= set < self.sets.len()
        &&& 0 <= pass < self.sets[set].passes.len()
        &&& !(set == self.sets.len() - 1 && pass == self.sets[set].passes.len() - 1)
    }
}

/// How many sets `steps` start.
pub open spec fn sets_started(steps: Seq<BuildStep>) -> nat
    decreases steps.len(),
{
    if steps.len() == 0 {
        0
    } else {
        sets_started(steps.drop_last()) + if steps.last() is StartSet {
            1nat
        } else {
            0nat
        }
    }
}

/// The descriptors of the steps of `steps` that add a pass, in order. Each
/// adds its pass where a set has been started.
pub open spec fn passes_added(steps: Seq<BuildStep>) -> Seq<RenderPassDescriptorModel>
    decreases steps.len(),
{
    if steps.len() == 0 {
        Seq::empty()
    } else {
        match steps.last() {
            BuildStep::AddPass(desc) => passes_added(steps.drop_last()).push(desc),
            _ => passes_added(steps.drop_last()),
        }
    }
}

/// The operations of the steps of `steps` that add an operation, in order.
/// Each adds its operation where the set started last holds a pass.
pub open spec fn ops_added(steps: Seq<BuildStep>) -> Seq<RenderOpModel>
    decreases steps.len(),
{
    if steps.len() == 0 {
        Seq::empty()
    } else {
        match steps.last() {
            BuildStep::AddOp(op) => ops_added(steps.drop_last()).push(op),
            _ => ops_added(steps.drop_last()),
        }
    }
}

/// Replaying `first` and then `second` is replaying the two in one go.
pub proof fn lemma_after_all_concat(
    start: RenderListModel,
    first: Seq<BuildStep>,
    second: Seq<BuildStep>,
)
    ensures
        start.after_all(first + second) == start.after_all(first).after_all(second),
    decreases second.len(),
{
    if second.len() == 0 {
        assert(first + second =~= first);
    } else {
        lemma_after_all_concat(start, first, second.drop_last());
        assert((first + second).drop_last() =~= first + second.drop_last());
    }
}

/// Replaying `steps` is taking the first step and replaying the rest.
proof fn lemma_after_all_first(start: RenderListModel, steps: Seq<BuildStep>)
    requires
        steps.len() > 0,
    ensures
        start.after_all(steps) == start.after(steps[0]).after_all(
            steps.subrange(1, steps.len() as int),
        ),
{
    let head = seq![steps[0]];
    assert(head.drop_last() =~= Seq::<BuildStep>::empty());
    assert(start.after_all(head) == start.after(steps[0])) by {
        reveal_with_fuel(RenderListModel::after_all, 2);
    }
    assert(steps =~= head + steps.subrange(1, steps.len() as int));
    lemma_after_all_concat(start, head, steps.subrange(1, steps.len() as int));
}

/// A list holds one set for each set that was started.
pub proof fn lemma_one_set_per_start(start: RenderListModel, steps: Seq<BuildStep>)
    ensures
        start.after_all(steps).sets.len() == start.sets.len() + sets_started(steps),
    decreases steps.len(),
{
    if steps.len() > 0 {
        lemma_one_set_per_start(start, steps.drop_last());
    }
}

/// No step changes a set after another set was started.
proof fn lemma_closed_set_stays(start: RenderListModel, set: int, steps: Seq<BuildStep>)
    requires
        0 <= set < start.sets.len() - 1,
    ensures
        set < start.after_all(steps).sets.len() - 1,
        start.after_all(steps).sets[set] == start.sets[set],
    decreases steps.len(),
{
    if steps.len() > 0 {
        lemma_closed_set_stays(start, set, steps.drop_last());
    }
}

/// No step changes a pass after another pass was added or another set was
/// started.
proof fn lemma_closed_pass_stays(
    start: RenderListModel,
    set: int,
    pass: int,
    steps: Seq<BuildStep>,
)
    requires
        start.pass_is_closed(set, pass),
    ensures
        start.after_all(steps).pass_is_closed(set, pass),
        start.after_all(steps).sets[set].passes[pass] == start.sets[set].passes[pass],
    decreases steps.len(),
{
    if steps.len() > 0 {
        lemma_closed_pass_stays(start, set, pass, steps.drop_last());
    }
}

/// While no set is started, the passes that are added go to the end of the
/// set started last, in order, and nothing else changes which passes it has.
proof fn lemma_passes_go_to_the_active_set(start: RenderListModel, steps: Seq<BuildStep>)
    requires
        start.has_active_set(),
        sets_started(steps) == 0,
    ensures
        ({
            let built = start.after_all(steps);
            let set = start.sets.len() - 1;
            let had = start.sets[set].passes.len();
            &&& built.sets.len() == start.sets.len()
            &&& built.sets[set].run_rate == start.sets[set].run_rate
            &&& built.sets[set].passes.len() == had + passes_added(steps).len()
            &&& forall|i: int|
                had <= i < built.sets[set].passes.len() ==> (#[trigger] built.sets[set].passes[i]).desc
                    == passes_added(steps)[i - had]
        }),
    decreases steps.len(),
{
    if steps.len() > 0 {
        lemma_passes_go_to_the_active_set(start, steps.drop_last());
    }
}

/// While no set is started and no pass is added, the operations that are
/// added go to the end of the pass added last, in order, and nothing else
/// changes it.
proof fn lemma_ops_go_to_the_active_pass(start: RenderListModel, steps: Seq<BuildStep>)
    requires
        start.has_active_pass(),
        sets_started(steps) == 0,
        passes_added(steps).len() == 0,
    ensures
        ({
            let built = start.after_all(steps);
            let set = start.sets.len() - 1;
            let pass = start.sets[set].passes.len() - 1;
            &&& built.sets.len() == start.sets.len()
            &&& built.sets[set].passes.len() == start.sets[set].passes.len()
            &&& built.sets[set].passes[pass].desc == start.sets[set].passes[pass].desc
            &&& built.sets[set].passes[pass].ops == start.sets[set].passes[pass].ops + ops_added(
                steps,
            )
        }),
    decreases steps.len(),
{
    if steps.len() > 0 {
        lemma_ops_go_to_the_active_pass(start, steps.drop_last());
    }
}

/// Every set of a list holds the passes that were added while it was the set
/// started last, one pass for each call and in the order of the calls.
///
/// The steps are split at the set in question: `before` it was started,
/// `during` the time it was the set started last, and `later`, which is empty
/// or begins with the start of the next set.
pub proof fn lemma_passes_of_a_set(
    start: RenderListModel,
    before: Seq<BuildStep>,
    run_rate: RenderPassSetRunRate,
    during: Seq<BuildStep>,
    later: Seq<BuildStep>,
)
    requires
        sets_started(during) == 0,
        later.len() == 0 || later[0] is StartSet,
    ensures
        ({
            let steps = before.push(BuildStep::StartSet(run_rate)) + during + later;
            let built = start.after_all(steps);
            let set = (start.sets.len() + sets_started(before)) as int;
            &&& set < built.sets.len()
            &&& built.sets[set].run_rate == run_rate
            &&& built.sets[set].passes.len() == passes_added(during).len()
            &&& forall|i: int|
                0 <= i < passes_added(during).len() ==> (#[trigger] built.sets[set].passes[i]).desc
                    == passes_added(during)[i]
        }),
{
    let opening = before.push(BuildStep::StartSet(run_rate));
    let opened = start.after_all(opening);
    let filled = opened.after_all(during);
    let set = (start.sets.len() + sets_started(before)) as int;
    assert(opening.drop_last() =~= before);
    lemma_one_set_per_start(start, before);
    lemma_passes_go_to_the_active_set(opened, during);
    lemma_after_all_concat(start, opening, during);
    lemma_after_all_concat(start, opening + during, later);
    if later.len() > 0 {
        lemma_after_all_first(filled, later);
        lemma_closed_set_stays(filled.after(later[0]), set, later.subrange(1, later.len() as int));
    }
}

/// Every pass of a list holds the operations that were added while it was the
/// pass added last, one for each call and in the order of the calls.
///
/// The steps are split at the pass in question: `before` it was added, at a
/// time when a set had been started; `during` the time it was the pass that
/// operations go to; and `later`, which is empty or begins with the next pass
/// or the next set.
pub proof fn lemma_ops_of_a_pass(
    start: RenderListModel,
    before: Seq<BuildStep>,
    desc: RenderPassDescriptorModel,
    during: Seq<BuildStep>,
    later: Seq<BuildStep>,
)
    requires
        start.after_all(before).has_active_set(),
        sets_started(during) == 0,
        passes_added(during).len() == 0,
        later.len() == 0 || later[0] is StartSet || later[0] is AddPass,
    ensures
        ({
            let steps = before.push(BuildStep::AddPass(desc)) + during + later;
            let built = start.after_all(steps);
            let set = start.after_all(before).sets.len() - 1;
            let pass = start.after_all(before).sets[set].passes.len() as int;
            &&& set < built.sets.len()
            &&& pass < built.sets[set].passes.len()
            &&& built.sets[set].passes[pass].desc == desc
            &&& built.sets[set].passes[pass].ops == ops_added(during)
        }),
{
    let opening = before.push(BuildStep::AddPass(desc));
    let opened = start.after_all(opening);
    let filled = opened.after_all(during);
    let set = start.after_all(before).sets.len() - 1;
    let pass = start.after_all(before).sets[set].passes.len() as int;
    assert(opening.drop_last() =~= before);
    lemma_ops_go_to_the_active_pass(opened, during);
    assert(filled.sets[set].passes[pass].ops =~= ops_added(during));
    lemma_after_all_concat(start, opening, during);
    lemma_after_all_concat(start, opening + during, later);
    if later.len() > 0 {
        lemma_after_all_first(filled, later);
        lemma_closed_pass_stays(
            filled.after(later[0]),
            set,
            pass,
            later.subrange(1, later.len() as int),
        );
    }
}

/// Each registry of a list is what the writes to it make of it: the steps
/// that write elsewhere, or add to the sets, leave it alone. So what holds
/// of every sequence of writes to a map (the last write to a name wins, the
/// size is the number of distinct names) holds of each registry of every
/// list.
pub proof fn lemma_registries_follow_their_writes(start: RenderListModel, steps: Seq<BuildStep>)
    ensures
        start.after_all(steps).shaders == written(
            start.shaders,
            steps.map_values(|step: BuildStep| step.shader_write()),
        ),
        start.after_all(steps).images == written(
            start.images,
            steps.map_values(|step: BuildStep| step.image_write()),
        ),
        start.after_all(steps).buffers == written(
            start.buffers,
            steps.map_values(|step: BuildStep| step.buffer_write()),
        ),
    decreases steps.len(),
{
    if steps.len() > 0 {
        let earlier = steps.drop_last();
        lemma_registries_follow_their_writes(start, earlier);
        assert(steps.map_values(|step: BuildStep| step.shader_write()).drop_last()
            =~= earlier.map_values(|step: BuildStep| step.shader_write()));
        assert(steps.map_values(|step: BuildStep| step.image_write()).drop_last()
            =~= earlier.map_values(|step: BuildStep| step.image_write()));
        assert(steps.map_values(|step: BuildStep| step.buffer_write()).drop_last()
            =~= earlier.map_values(|step: BuildStep| step.buffer_write()));
    }
}

} // verus!
