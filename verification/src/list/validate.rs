//! Checking a finished list: does every name in it stand for something?
//!
//! The building calls take any name, so that resources can be declared
//! after the passes that use them. Whether the names resolve is asked once,
//! of the finished list: `validate` looks up every shader and image that a
//! pass or an operation names, and follows every registered image to the
//! root of its size. An executor that is handed an unchecked list has to
//! report an unresolved name itself; none may draw with one.

use vstd::prelude::*;
use super::model::{RenderListModel, RenderPassModel, RenderPassSetModel};
use super::passes::{
    ImageOutputModel, RenderOpDescriptor, RenderOpModel, RenderPassDescriptor,
    RenderPassDescriptorModel, ResourceBinding, ResourceBindingModel,
};
use super::resolve::{
    cycles, dangles, lemma_outcomes_exclude_each_other, resolves, ImageRoot, ResolveError,
};
use super::resources::{
    ImageInputReference, ImageInputReferenceModel, ImageOutputReference,
    ImageOutputReferenceModel,
};
use super::{RenderList, RenderPass, RenderPassSet};

verus! {

/// A name that a pass or an operation uses, with the registry it is looked
/// up in.
#[derive(Debug, Clone, PartialEq, Eq)]
pub enum Reference {
    Shader(String),
    Image(String),
}

/// Model of a [`Reference`].
#[verifier::ext_equal]
pub enum ReferenceModel {
    Shader(Seq<char>),
    Image(Seq<char>),
}

impl DeepView for Reference {
    type V = ReferenceModel;

    open spec fn deep_view(&self) -> ReferenceModel {
        match self {
            Reference::Shader(name) => ReferenceModel::Shader(name@),
            Reference::Image(name) => ReferenceModel::Image(name@),
        }
    }
}

/// What is wrong with a list that does not validate.
#[derive(Debug, Clone, PartialEq, Eq)]
pub enum Unresolved {
    /// An operation names this shader, which the registry does not hold.
    Shader(String),
    /// A pass, an operation or a relative image names this image, which the
    /// registry does not hold.
    Image(String),
    /// The size of this image goes back to itself.
    CyclicImage(String),
}

/// What `each` finds in the items, one item after the other.
pub open spec fn gather<A, B>(items: Seq<A>, each: spec_fn(A) -> Seq<B>) -> Seq<B>
    decreases items.len(),
{
    if items.len() == 0 {
        Seq::empty()
    } else {
        gather(items.drop_last(), each) + each(items.last())
    }
}

/// The image that an output names, if it names one.
pub open spec fn output_references(output: ImageOutputReferenceModel) -> Seq<ReferenceModel> {
    match output {
        ImageOutputReferenceModel::OutputImage => Seq::empty(),
        ImageOutputReferenceModel::Custom(name) => seq![ReferenceModel::Image(name)],
    }
}

/// The image that an output names, if there is an output and it names one.
pub open spec fn optional_output_references(output: Option<ImageOutputReferenceModel>) -> Seq<
    ReferenceModel,
> {
    match output {
        Some(output) => output_references(output),
        None => Seq::empty(),
    }
}

/// The images that a colour output names: the output, then its resolve
/// target.
pub open spec fn color_output_references(output: ImageOutputModel) -> Seq<ReferenceModel> {
    output_references(output.output) + optional_output_references(output.resolve_target)
}

/// The images that a pass writes: its colour outputs in order, then its
/// depth output.
pub open spec fn desc_references(desc: RenderPassDescriptorModel) -> Seq<ReferenceModel> {
    gather(desc.outputs, |output: ImageOutputModel| color_output_references(output))
        + optional_output_references(desc.depth)
}

/// The image that an input names.
pub open spec fn input_references(input: ImageInputReferenceModel) -> Seq<ReferenceModel> {
    match input {
        ImageInputReferenceModel::Custom(name) => seq![ReferenceModel::Image(name)],
    }
}

/// The images that a binding names, in order.
pub open spec fn binding_references(binding: ResourceBindingModel) -> Seq<ReferenceModel> {
    match binding {
        ResourceBindingModel::Custom2DTexture(images) => gather(
            images,
            |input: ImageInputReferenceModel| input_references(input),
        ),
        _ => Seq::empty(),
    }
}

/// The shader that a name stands for, if there is a name.
pub open spec fn optional_shader_references(name: Option<Seq<char>>) -> Seq<ReferenceModel> {
    match name {
        Some(name) => seq![ReferenceModel::Shader(name)],
        None => Seq::empty(),
    }
}

/// What an operation names: its vertex shader, its fragment shader, then
/// the images of its bindings in order.
pub open spec fn op_references(op: RenderOpModel) -> Seq<ReferenceModel> {
    seq![ReferenceModel::Shader(op.vertex)] + optional_shader_references(op.fragment) + gather(
        op.bindings,
        |binding: ResourceBindingModel| binding_references(binding),
    )
}

/// What a pass names: what it writes, then what its operations name, in
/// order.
pub open spec fn pass_references(pass: RenderPassModel) -> Seq<ReferenceModel> {
    desc_references(pass.desc) + gather(pass.ops, |op: RenderOpModel| op_references(op))
}

/// What the passes of a set name, in order.
pub open spec fn set_references(set: RenderPassSetModel) -> Seq<ReferenceModel> {
    gather(set.passes, |pass: RenderPassModel| pass_references(pass))
}

/// Every name that the sets of a list use, in the order in which the
/// executor meets them.
pub open spec fn list_references(sets: Seq<RenderPassSetModel>) -> Seq<ReferenceModel> {
    gather(sets, |set: RenderPassSetModel| set_references(set))
}

impl RenderListModel {
    /// The registry that `reference` is looked up in holds its name.
    pub open spec fn is_registered(self, reference: ReferenceModel) -> bool {
        match reference {
            ReferenceModel::Shader(name) => self.shaders.contains_key(name),
            ReferenceModel::Image(name) => self.images.contains_key(name),
        }
    }

    /// Every name that the sets use is registered.
    pub open spec fn all_registered(self) -> bool {
        forall|i: int|
            0 <= i < list_references(self.sets).len() ==> self.is_registered(
                #[trigger] list_references(self.sets)[i],
            )
    }

    /// `reference` is the first name that the sets use and that is not
    /// registered.
    pub open spec fn first_unregistered(self, reference: ReferenceModel) -> bool {
        exists|at: int|
            {
                &&& 0 <= at < list_references(self.sets).len()
                &&& #[trigger] list_references(self.sets)[at] == reference
                &&& !self.is_registered(reference)
                &&& forall|i: int|
                    0 <= i < at ==> self.is_registered(#[trigger] list_references(self.sets)[i])
            }
    }

    /// The size of the image `name` goes back to a root.
    pub open spec fn has_root(self, name: Seq<char>) -> bool {
        exists|names: Seq<Seq<char>>, root: ImageRoot| resolves(self.images, name, names, root)
    }

    /// Every name that the sets use is registered, and every registered
    /// image has a root.
    pub open spec fn is_valid(self) -> bool {
        &&& self.all_registered()
        &&& forall|name: Seq<char>| #[trigger] self.images.contains_key(name) ==> self.has_root(name)
    }
}

/// Gathering from a sequence with one more item adds what the item holds.
proof fn lemma_gather_next<A, B>(items: Seq<A>, each: spec_fn(A) -> Seq<B>, done: int)
    requires
        0 <= done < items.len(),
    ensures
        gather(items.subrange(0, done + 1), each) == gather(items.subrange(0, done), each) + each(
            items[done],
        ),
{
    assert(items.subrange(0, done + 1).drop_last() =~= items.subrange(0, done));
}

/// Adds to `found` the image that `output` names, if it names one.
fn collect_output(output: &ImageOutputReference, found: &mut Vec<Reference>)
    ensures
        final(found).deep_view() == old(found).deep_view() + output_references(
            output.deep_view(),
        ),
{
    match output {
        ImageOutputReference::OutputImage => {},
        ImageOutputReference::Custom(name) => {
            found.push(Reference::Image(name.clone()));
        },
    }
    assert(found.deep_view() =~= old(found).deep_view() + output_references(output.deep_view()));
}

/// Adds to `found` the image that `output` names, if there is an output and
/// it names one.
fn collect_optional_output(output: &Option<ImageOutputReference>, found: &mut Vec<Reference>)
    ensures
        final(found).deep_view() == old(found).deep_view() + optional_output_references(
            output.deep_view(),
        ),
{
    match output {
        Some(output) => {
            collect_output(output, found);
        },
        None => {},
    }
    assert(found.deep_view() =~= old(found).deep_view() + optional_output_references(
        output.deep_view(),
    ));
}

/// Adds to `found` the images that a pass writes.
fn collect_desc(desc: &RenderPassDescriptor, found: &mut Vec<Reference>)
    ensures
        final(found).deep_view() == old(found).deep_view() + desc_references(desc.deep_view()),
{
    let ghost each = |output: ImageOutputModel| color_output_references(output);
    let ghost outputs = desc.outputs.deep_view();
    let mut i: usize = 0;
    assert(found.deep_view() =~= old(found).deep_view() + gather(outputs.subrange(0, 0), each));
    while i < desc.outputs.len()
        invariant
            i <= desc.outputs.len(),
            outputs == desc.outputs.deep_view(),
            each == |output: ImageOutputModel| color_output_references(output),
            found.deep_view() == old(found).deep_view() + gather(outputs.subrange(0, i as int), each),
        decreases desc.outputs.len() - i,
    {
        let ghost before = found.deep_view();
        collect_output(&desc.outputs[i].output, found);
        collect_optional_output(&desc.outputs[i].resolve_target, found);
        proof {
            lemma_gather_next(outputs, each, i as int);
            assert(found.deep_view() =~= before + color_output_references(outputs[i as int]));
            assert(found.deep_view() =~= old(found).deep_view() + gather(
                outputs.subrange(0, i + 1),
                each,
            ));
        }
        i += 1;
    }
    assert(outputs.subrange(0, i as int) =~= outputs);
    collect_optional_output(&desc.depth, found);
    assert(found.deep_view() =~= old(found).deep_view() + desc_references(desc.deep_view()));
}

/// Adds to `found` the images that `binding` names.
fn collect_binding(binding: &ResourceBinding, found: &mut Vec<Reference>)
    ensures
        final(found).deep_view() == old(found).deep_view() + binding_references(
            binding.deep_view(),
        ),
{
    match binding {
        ResourceBinding::Custom2DTexture(images) => {
            let ghost each = |input: ImageInputReferenceModel| input_references(input);
            let ghost inputs = images.deep_view();
            let mut i: usize = 0;
            assert(found.deep_view() =~= old(found).deep_view() + gather(
                inputs.subrange(0, 0),
                each,
            ));
            while i < images.len()
                invariant
                    i <= images.len(),
                    inputs == images.deep_view(),
                    each == |input: ImageInputReferenceModel| input_references(input),
                    found.deep_view() == old(found).deep_view() + gather(
                        inputs.subrange(0, i as int),
                        each,
                    ),
                decreases images.len() - i,
            {
                let ghost before = found.deep_view();
                match &images[i] {
                    ImageInputReference::Custom(name) => {
                        found.push(Reference::Image(name.clone()));
                    },
                }
                proof {
                    lemma_gather_next(inputs, each, i as int);
                    assert(found.deep_view() =~= before + input_references(inputs[i as int]));
                    assert(found.deep_view() =~= old(found).deep_view() + gather(
                        inputs.subrange(0, i + 1),
                        each,
                    ));
                }
                i += 1;
            }
            assert(inputs.subrange(0, i as int) =~= inputs);
        },
        _ => {
            assert(found.deep_view() =~= old(found).deep_view() + binding_references(
                binding.deep_view(),
            ));
        },
    }
}

/// Adds to `found` what `op` names.
fn collect_op(op: &RenderOpDescriptor, found: &mut Vec<Reference>)
    ensures
        final(found).deep_view() == old(found).deep_view() + op_references(op.deep_view()),
{
    found.push(Reference::Shader(op.vertex.clone()));
    match &op.fragment {
        Some(name) => {
            found.push(Reference::Shader(name.clone()));
        },
        None => {},
    }
    let ghost shaders = seq![ReferenceModel::Shader(op.vertex@)] + optional_shader_references(
        op.fragment.deep_view(),
    );
    let ghost each = |binding: ResourceBindingModel| binding_references(binding);
    let ghost bindings = op.bindings.deep_view();
    let mut i: usize = 0;
    assert(found.deep_view() =~= old(found).deep_view() + shaders + gather(
        bindings.subrange(0, 0),
        each,
    ));
    while i < op.bindings.len()
        invariant
            i <= op.bindings.len(),
            bindings == op.bindings.deep_view(),
            each == |binding: ResourceBindingModel| binding_references(binding),
            found.deep_view() == old(found).deep_view() + shaders + gather(
                bindings.subrange(0, i as int),
                each,
            ),
        decreases op.bindings.len() - i,
    {
        collect_binding(&op.bindings[i], found);
        proof {
            lemma_gather_next(bindings, each, i as int);
            assert(found.deep_view() =~= old(found).deep_view() + shaders + gather(
                bindings.subrange(0, i + 1),
                each,
            ));
        }
        i += 1;
    }
    assert(bindings.subrange(0, i as int) =~= bindings);
    assert(found.deep_view() =~= old(found).deep_view() + op_references(op.deep_view()));
}

/// Adds to `found` what `pass` names.
fn collect_pass(pass: &RenderPass, found: &mut Vec<Reference>)
    ensures
        final(found).deep_view() == old(found).deep_view() + pass_references(pass.deep_view()),
{
    collect_desc(pass.desc(), found);
    let ghost written = desc_references(pass.deep_view().desc);
    let ghost each = |op: RenderOpModel| op_references(op);
    let ghost models = pass.deep_view().ops;
    let ops = pass.ops();
    let mut i: usize = 0;
    assert(found.deep_view() =~= old(found).deep_view() + written + gather(
        models.subrange(0, 0),
        each,
    ));
    while i < ops.len()
        invariant
            i <= ops.len(),
            models == ops.deep_view(),
            each == |op: RenderOpModel| op_references(op),
            found.deep_view() == old(found).deep_view() + written + gather(
                models.subrange(0, i as int),
                each,
            ),
        decreases ops.len() - i,
    {
        collect_op(&ops[i], found);
        proof {
            lemma_gather_next(models, each, i as int);
            assert(found.deep_view() =~= old(found).deep_view() + written + gather(
                models.subrange(0, i + 1),
                each,
            ));
        }
        i += 1;
    }
    assert(models.subrange(0, i as int) =~= models);
    assert(found.deep_view() =~= old(found).deep_view() + pass_references(pass.deep_view()));
}

/// Adds to `found` what the passes of `set` name.
fn collect_set(set: &RenderPassSet, found: &mut Vec<Reference>)
    ensures
        final(found).deep_view() == old(found).deep_view() + set_references(set.deep_view()),
{
    let ghost each = |pass: RenderPassModel| pass_references(pass);
    let ghost models = set.deep_view().passes;
    let passes = set.render_passes();
    let mut i: usize = 0;
    assert(found.deep_view() =~= old(found).deep_view() + gather(models.subrange(0, 0), each));
    while i < passes.len()
        invariant
            i <= passes.len(),
            models == passes.deep_view(),
            each == |pass: RenderPassModel| pass_references(pass),
            found.deep_view() == old(found).deep_view() + gather(
                models.subrange(0, i as int),
                each,
            ),
        decreases passes.len() - i,
    {
        collect_pass(&passes[i], found);
        proof {
            lemma_gather_next(models, each, i as int);
            assert(found.deep_view() =~= old(found).deep_view() + gather(
                models.subrange(0, i + 1),
                each,
            ));
        }
        i += 1;
    }
    assert(models.subrange(0, i as int) =~= models);
}

impl RenderList {
    /// Every name that the sets of the list use, in the order in which the
    /// executor meets them: set by set and pass by pass, first what a pass
    /// writes, then what its operations name. A name that is used twice is
    /// listed twice.
    pub fn references(&self) -> (found: Vec<Reference>)
        ensures
            found.deep_view() == list_references(self@.sets),
    {
        let mut found: Vec<Reference> = Vec::new();
        let ghost each = |set: RenderPassSetModel| set_references(set);
        let ghost models = self@.sets;
        let sets = self.sets();
        let mut i: usize = 0;
        assert(found.deep_view() =~= gather(models.subrange(0, 0), each));
        while i < sets.len()
            invariant
                i <= sets.len(),
                models == sets.deep_view(),
                each == |set: RenderPassSetModel| set_references(set),
                found.deep_view() == gather(models.subrange(0, i as int), each),
            decreases sets.len() - i,
        {
            collect_set(&sets[i], &mut found);
            proof {
                lemma_gather_next(models, each, i as int);
            }
            i += 1;
        }
        assert(models.subrange(0, i as int) =~= models);
        found
    }

    /// Checks that every name in the list stands for something.
    ///
    /// The names that the sets use are looked up in the order of
    /// [`RenderList::references`], and the first that is not registered is
    /// the error. Where all are registered, every registered image is
    /// followed to the root of its size, and an image without a root is the
    /// error; which one, where there are several, is left open.
    pub fn validate(&self) -> (result: Result<(), Unresolved>)
        ensures
            match result {
                Ok(_) => self@.is_valid(),
                Err(Unresolved::Shader(name)) => self@.first_unregistered(
                    ReferenceModel::Shader(name@),
                ),
                Err(Unresolved::Image(name)) => self@.first_unregistered(
                    ReferenceModel::Image(name@),
                ) || (self@.all_registered() && exists|from: Seq<char>|
                    self@.images.contains_key(from) && dangles(self@.images, from, name@)),
                Err(Unresolved::CyclicImage(name)) => self@.all_registered()
                    && self@.images.contains_key(name@) && cycles(self@.images, name@),
            },
    {
        let references = self.references();
        let ghost used = list_references(self@.sets);
        let mut i: usize = 0;
        while i < references.len()
            invariant
                i <= references.len(),
                used == list_references(self@.sets),
                references.deep_view() == used,
                forall|j: int| 0 <= j < i ==> self@.is_registered(#[trigger] used[j]),
            decreases references.len() - i,
        {
            assert(references.deep_view()[i as int] == references[i as int].deep_view());
            match &references[i] {
                Reference::Shader(name) => {
                    if self.shaders().get(name.as_str()).is_none() {
                        assert(used[i as int] == ReferenceModel::Shader(name@));
                        return Err(Unresolved::Shader(name.clone()));
                    }
                },
                Reference::Image(name) => {
                    if self.images().get(name.as_str()).is_none() {
                        assert(used[i as int] == ReferenceModel::Image(name@));
                        return Err(Unresolved::Image(name.clone()));
                    }
                },
            }
            i += 1;
        }
        assert(self@.all_registered());
        let (names, _) = self.images().entries();
        assert forall|j: int| 0 <= j < names.len() implies self@.images.contains_key(
            #[trigger] names[j]@,
        ) by {
            assert(names.deep_view()[j] == names[j]@);
        }
        let mut i: usize = 0;
        while i < names.len()
            invariant
                i <= names.len(),
                self@.all_registered(),
                forall|j: int|
                    0 <= j < names.len() ==> self@.images.contains_key(#[trigger] names[j]@),
                forall|name: Seq<char>| #[trigger]
                    self@.images.contains_key(name) ==> names.deep_view().contains(name),
                forall|j: int| 0 <= j < i ==> self@.has_root(#[trigger] names[j]@),
            decreases names.len() - i,
        {
            match self.resolve_image(names[i].as_str()) {
                Ok(chain) => {
                    assert(resolves(
                        self@.images,
                        names[i as int]@,
                        chain.names.deep_view(),
                        chain.root,
                    ));
                },
                Err(ResolveError::Undefined(missing)) => {
                    return Err(Unresolved::Image(missing));
                },
                Err(ResolveError::Cyclic) => {
                    return Err(Unresolved::CyclicImage(names[i].clone()));
                },
            }
            i += 1;
        }
        proof {
            assert forall|name: Seq<char>| #[trigger] self@.images.contains_key(name) implies self@.has_root(
                name,
            ) by {
                let at = choose|at: int|
                    0 <= at < names.deep_view().len() && names.deep_view()[at] == name;
                assert(names[at]@ == name);
            }
        }
        Ok(())
    }
}

/// A list for which `validate` names a defect is not valid: an unregistered
/// name that is used, an image that leads to an unregistered name and an
/// image in a cycle are each a way of not being valid.
pub proof fn lemma_defects_are_invalid(list: RenderListModel, name: Seq<char>, from: Seq<char>)
    ensures
        list.first_unregistered(ReferenceModel::Shader(name)) ==> !list.is_valid(),
        list.first_unregistered(ReferenceModel::Image(name)) ==> !list.is_valid(),
        list.images.contains_key(from) && dangles(list.images, from, name) ==> !list.is_valid(),
        list.images.contains_key(name) && cycles(list.images, name) ==> !list.is_valid(),
{
    if list.images.contains_key(from) && dangles(list.images, from, name) && list.is_valid() {
        assert(list.has_root(from));
        let (names, root) = choose|names: Seq<Seq<char>>, root: ImageRoot|
            resolves(list.images, from, names, root);
        lemma_outcomes_exclude_each_other(list.images, from, names, root, name, name);
    }
    if list.images.contains_key(name) && cycles(list.images, name) && list.is_valid() {
        assert(list.has_root(name));
        let (names, root) = choose|names: Seq<Seq<char>>, root: ImageRoot|
            resolves(list.images, name, names, root);
        lemma_outcomes_exclude_each_other(list.images, name, names, root, name, name);
    }
}

} // verus!
