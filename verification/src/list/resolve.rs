//! Following relative image resolutions to their root.
//!
//! An image is sized either by itself or relative to another image, which
//! may again be relative. The list takes any name as the base of a relative
//! image, so a finished list may hold a chain that leads to a name nobody
//! registered, or one that leads back into itself. `resolve_image` follows
//! the chain of one image and says which of the three it found.

use vstd::prelude::*;
use vstd::set_lib::lemma_len_subset;
use super::resources::{
    ImageModel, ImageReference, ImageReferenceModel, ImageResolution, ImageResolutionModel,
};
use super::RenderList;

verus! {

/// What the size of an image goes back to in the end.
#[derive(Debug, Clone, Copy, PartialEq, Eq)]
pub enum ImageRoot {
    /// Explicit pixel dimensions: width, then height.
    Absolute(u32, u32),
    /// The size of the image the frame is finally presented in.
    OutputImage,
}

/// The way from an image to the root of its size.
#[derive(Debug, Clone, PartialEq, Eq)]
pub struct ImageChain {
    /// The images on the way, each relative to the next: first the image
    /// asked for, last the one whose resolution names the root.
    pub names: Vec<String>,
    pub root: ImageRoot,
}

/// Why an image has no root.
#[derive(Debug, Clone, PartialEq, Eq)]
pub enum ResolveError {
    /// The chain leads to this name, which the registry does not hold.
    Undefined(String),
    /// The chain leads back to an image it has already passed.
    Cyclic,
}

/// The name of the image that `name` is sized relative to, where `name` is
/// registered and sized relative to a named image. That image need not be
/// registered.
pub open spec fn base_of(images: Map<Seq<char>, ImageModel>, name: Seq<char>) -> Option<Seq<char>> {
    if images.contains_key(name) {
        match images[name].resolution {
            ImageResolutionModel::Relative(ImageReferenceModel::Custom(base), _) => Some(base),
            _ => None,
        }
    } else {
        None
    }
}

/// The root that the resolution of `name` itself names, where `name` is
/// registered and is not sized relative to a named image.
pub open spec fn root_at(images: Map<Seq<char>, ImageModel>, name: Seq<char>) -> Option<ImageRoot> {
    if images.contains_key(name) {
        match images[name].resolution {
            ImageResolutionModel::Absolute(width, height) => Some(
                ImageRoot::Absolute(width, height),
            ),
            ImageResolutionModel::Relative(ImageReferenceModel::OutputImage, _) => Some(
                ImageRoot::OutputImage,
            ),
            ImageResolutionModel::Relative(ImageReferenceModel::Custom(_), _) => None,
        }
    } else {
        None
    }
}

/// The name reached from `name` by going from an image to its base `hops`
/// times, or `None` where the way ends earlier.
pub open spec fn reached(images: Map<Seq<char>, ImageModel>, name: Seq<char>, hops: nat) -> Option<
    Seq<char>,
>
    decreases hops,
{
    if hops == 0 {
        Some(name)
    } else {
        match reached(images, name, (hops - 1) as nat) {
            Some(at) => base_of(images, at),
            None => None,
        }
    }
}

/// Going from base to base from `name` passes `names`, one after the other,
/// and ends at the last of them, whose resolution names `root`.
pub open spec fn resolves(
    images: Map<Seq<char>, ImageModel>,
    name: Seq<char>,
    names: Seq<Seq<char>>,
    root: ImageRoot,
) -> bool {
    &&& names.len() > 0
    &&& forall|i: int|
        0 <= i < names.len() ==> reached(images, name, i as nat) == Some(#[trigger] names[i])
    &&& root_at(images, names.last()) == Some(root)
}

/// Going from base to base from `name` arrives at `missing`, which the
/// registry does not hold.
pub open spec fn dangles(images: Map<Seq<char>, ImageModel>, name: Seq<char>, missing: Seq<char>) -> bool {
    exists|hops: nat|
        #[trigger] reached(images, name, hops) == Some(missing) && !images.contains_key(missing)
}

/// Going from base to base from `name` never ends.
pub open spec fn cycles(images: Map<Seq<char>, ImageModel>, name: Seq<char>) -> bool {
    forall|hops: nat| #[trigger] reached(images, name, hops) is Some
}

/// Once the way has ended it does not start again.
proof fn lemma_ended_stays_ended(
    images: Map<Seq<char>, ImageModel>,
    name: Seq<char>,
    hops: nat,
    more: nat,
)
    requires
        reached(images, name, hops) is None,
    ensures
        reached(images, name, hops + more) is None,
    decreases more,
{
    if more > 0 {
        lemma_ended_stays_ended(images, name, hops, (more - 1) as nat);
    }
}

/// Going `first + then` hops from `name` is going `then` hops from where
/// `first` hops lead.
proof fn lemma_reached_in_two_legs(
    images: Map<Seq<char>, ImageModel>,
    name: Seq<char>,
    first: nat,
    then: nat,
)
    ensures
        reached(images, name, first + then) == (match reached(images, name, first) {
            Some(at) => reached(images, at, then),
            None => None,
        }),
    decreases then,
{
    if then > 0 {
        lemma_reached_in_two_legs(images, name, first, (then - 1) as nat);
    }
}

/// A way that passes an image twice never ends.
proof fn lemma_revisit_never_ends(
    images: Map<Seq<char>, ImageModel>,
    name: Seq<char>,
    first: nat,
    again: nat,
    hops: nat,
)
    requires
        first < again,
        reached(images, name, first) is Some,
        reached(images, name, first) == reached(images, name, again),
    ensures
        reached(images, name, hops) is Some,
    decreases hops,
{
    if hops <= again {
        if reached(images, name, hops) is None {
            lemma_ended_stays_ended(images, name, hops, (again - hops) as nat);
        }
    } else {
        let beyond = (hops - again) as nat;
        lemma_revisit_never_ends(images, name, first, again, first + beyond);
        lemma_reached_in_two_legs(images, name, again, beyond);
        lemma_reached_in_two_legs(images, name, first, beyond);
    }
}

/// More items than the pool they come from holds: two of them are the same.
proof fn lemma_pigeonhole<A>(items: Seq<A>, pool: Set<A>)
    requires
        pool.finite(),
        items.len() > pool.len(),
        forall|i: int| 0 <= i < items.len() ==> pool.contains(#[trigger] items[i]),
    ensures
        exists|i: int, j: int| 0 <= i < j < items.len() && items[i] == items[j],
{
    if items.no_duplicates() {
        items.unique_seq_to_set();
        assert(items.to_set().subset_of(pool));
        lemma_len_subset(items.to_set(), pool);
    } else {
        let (i, j) = choose|i: int, j: int|
            0 <= i < items.len() && 0 <= j < items.len() && i != j && items[i] == items[j];
        if i < j {
            assert(0 <= i < j < items.len() && items[i] == items[j]);
        } else {
            assert(0 <= j < i < items.len() && items[j] == items[i]);
        }
    }
}

/// A way that ends passes no image twice.
proof fn lemma_way_to_a_root_has_no_revisit(
    images: Map<Seq<char>, ImageModel>,
    name: Seq<char>,
    names: Seq<Seq<char>>,
    root: ImageRoot,
)
    requires
        resolves(images, name, names, root),
    ensures
        names.no_duplicates(),
{
    assert forall|i: int, j: int|
        0 <= i < names.len() && 0 <= j < names.len() && i != j implies names[i] != names[j] by {
        if names[i] == names[j] {
            let (first, again) = if i < j {
                (i as nat, j as nat)
            } else {
                (j as nat, i as nat)
            };
            lemma_revisit_never_ends(images, name, first, again, names.len());
            assert(reached(images, name, (names.len() - 1) as nat) == Some(names.last()));
        }
    }
}

/// An image resolves in one way only: to one root, along one chain.
pub proof fn lemma_resolution_is_unique(
    images: Map<Seq<char>, ImageModel>,
    name: Seq<char>,
    names: Seq<Seq<char>>,
    root: ImageRoot,
    other_names: Seq<Seq<char>>,
    other_root: ImageRoot,
)
    requires
        resolves(images, name, names, root),
        resolves(images, name, other_names, other_root),
    ensures
        names == other_names,
        root == other_root,
{
    assert(reached(images, name, (names.len() - 1) as nat) == Some(names.last()));
    assert(reached(images, name, (other_names.len() - 1) as nat) == Some(other_names.last()));
    if names.len() < other_names.len() {
        assert(reached(images, name, names.len()) == Some(other_names[names.len() as int]));
    }
    if other_names.len() < names.len() {
        assert(reached(images, name, other_names.len()) == Some(names[other_names.len() as int]));
    }
    assert(names =~= other_names);
}

/// The three outcomes exclude each other: a chain that reaches a root names
/// no missing image and does not cycle, and one that names a missing image
/// names one only and does not cycle.
pub proof fn lemma_outcomes_exclude_each_other(
    images: Map<Seq<char>, ImageModel>,
    name: Seq<char>,
    names: Seq<Seq<char>>,
    root: ImageRoot,
    missing: Seq<char>,
    other_missing: Seq<char>,
)
    ensures
        !(resolves(images, name, names, root) && dangles(images, name, missing)),
        !(resolves(images, name, names, root) && cycles(images, name)),
        !(dangles(images, name, missing) && cycles(images, name)),
        dangles(images, name, missing) && dangles(images, name, other_missing) ==> missing
            == other_missing,
{
    if resolves(images, name, names, root) {
        let end = (names.len() - 1) as nat;
        assert(reached(images, name, end) == Some(names.last()));
        assert(reached(images, name, end + 1) is None);
        if dangles(images, name, missing) {
            let hops = choose|hops: nat|
                #[trigger] reached(images, name, hops) == Some(missing) && !images.contains_key(
                    missing,
                );
            if hops <= end {
                assert(reached(images, name, hops) == Some(names[hops as int]));
                if hops < end {
                    assert(reached(images, name, hops + 1) is None);
                    lemma_ended_stays_ended(images, name, hops + 1, (end - hops - 1) as nat);
                }
            } else {
                lemma_ended_stays_ended(images, name, end + 1, (hops - end - 1) as nat);
            }
        }
    }
    if dangles(images, name, missing) {
        let hops = choose|hops: nat|
            #[trigger] reached(images, name, hops) == Some(missing) && !images.contains_key(
                missing,
            );
        assert(reached(images, name, hops + 1) is None);
        if dangles(images, name, other_missing) {
            let other_hops = choose|hops: nat|
                #[trigger] reached(images, name, hops) == Some(other_missing)
                    && !images.contains_key(other_missing);
            assert(reached(images, name, other_hops + 1) is None);
            if hops < other_hops {
                lemma_ended_stays_ended(images, name, hops + 1, (other_hops - hops - 1) as nat);
            }
            if other_hops < hops {
                lemma_ended_stays_ended(images, name, other_hops + 1, (hops - other_hops - 1) as nat);
            }
        }
    }
}

/// Resolution is transitive: an image that is sized relative to a named
/// image resolves as that image does, with itself put before the chain.
pub proof fn lemma_resolution_is_transitive(
    images: Map<Seq<char>, ImageModel>,
    name: Seq<char>,
    base: Seq<char>,
    names: Seq<Seq<char>>,
    root: ImageRoot,
    missing: Seq<char>,
)
    requires
        base_of(images, name) == Some(base),
    ensures
        resolves(images, base, names, root) ==> resolves(images, name, seq![name] + names, root),
        dangles(images, base, missing) ==> dangles(images, name, missing),
        cycles(images, base) ==> cycles(images, name),
{
    assert(reached(images, name, 1) == Some(base)) by {
        reveal_with_fuel(reached, 2);
    }
    if resolves(images, base, names, root) {
        let longer = seq![name] + names;
        assert forall|i: int| 0 <= i < longer.len() implies reached(images, name, i as nat) == Some(
            #[trigger] longer[i],
        ) by {
            if i > 0 {
                lemma_reached_in_two_legs(images, name, 1, (i - 1) as nat);
                assert(reached(images, base, (i - 1) as nat) == Some(names[i - 1]));
                assert(longer[i] == names[i - 1]);
            }
        }
        assert(longer.last() == names.last());
    }
    if dangles(images, base, missing) {
        let hops = choose|hops: nat|
            #[trigger] reached(images, base, hops) == Some(missing) && !images.contains_key(
                missing,
            );
        lemma_reached_in_two_legs(images, name, 1, hops);
        assert(reached(images, name, 1 + hops) == Some(missing));
    }
    if cycles(images, base) {
        assert forall|hops: nat| #[trigger] reached(images, name, hops) is Some by {
            if hops > 0 {
                lemma_reached_in_two_legs(images, name, 1, (hops - 1) as nat);
                assert(reached(images, base, (hops - 1) as nat) is Some);
            }
        }
    }
}

impl RenderList {
    /// Follows the image called `name` from base to base to the root of its
    /// size. The chain that is found passes no image twice. Where there is no
    /// root the error says why: the name that the registry lacks, or that the
    /// chain never ends.
    pub fn resolve_image(&self, name: &str) -> (result: Result<ImageChain, ResolveError>)
        ensures
            match result {
                Ok(chain) => resolves(self@.images, name@, chain.names.deep_view(), chain.root)
                    && chain.names.deep_view().no_duplicates(),
                Err(ResolveError::Undefined(missing)) => dangles(self@.images, name@, missing@),
                Err(ResolveError::Cyclic) => cycles(self@.images, name@),
            },
    {
        let images = self.images();
        let limit: usize = images.len();
        let mut names: Vec<String> = Vec::new();
        let mut current: String = name.to_owned();
        loop
            invariant
                images@ == self@.images,
                images@.dom().finite(),
                limit == images@.len(),
                names.len() <= limit,
                reached(images@, name@, names.len() as nat) == Some(current@),
                forall|i: int|
                    0 <= i < names.len() ==> reached(images@, name@, i as nat) == Some(
                        #[trigger] names[i]@,
                    ),
                forall|i: int| 0 <= i < names.len() ==> images@.contains_key(#[trigger] names[i]@),
            decreases limit - names.len(),
        {
            let ghost passed = names.deep_view();
            match images.get(current.as_str()) {
                None => {
                    return Err(ResolveError::Undefined(current));
                },
                Some(desc) => {
                    match &desc.resolution {
                        ImageResolution::Absolute(width, height) => {
                            let root = ImageRoot::Absolute(*width, *height);
                            names.push(current);
                            proof {
                                lemma_way_to_a_root_has_no_revisit(
                                    images@,
                                    name@,
                                    names.deep_view(),
                                    root,
                                );
                            }
                            return Ok(ImageChain { names, root });
                        },
                        ImageResolution::Relative(ImageReference::OutputImage, _) => {
                            let root = ImageRoot::OutputImage;
                            names.push(current);
                            proof {
                                lemma_way_to_a_root_has_no_revisit(
                                    images@,
                                    name@,
                                    names.deep_view(),
                                    root,
                                );
                            }
                            return Ok(ImageChain { names, root });
                        },
                        ImageResolution::Relative(ImageReference::Custom(base), _) => {
                            if names.len() == limit {
                                proof {
                                    let way = passed.push(current@);
                                    lemma_pigeonhole(way, images@.dom());
                                    let (first, again) = choose|i: int, j: int|
                                        0 <= i < j < way.len() && way[i] == way[j];
                                    assert(reached(images@, name@, first as nat) == Some(
                                        way[first],
                                    ));
                                    assert(reached(images@, name@, again as nat) == Some(
                                        way[again],
                                    ));
                                    assert forall|hops: nat| #[trigger]
                                        reached(images@, name@, hops) is Some by {
                                        lemma_revisit_never_ends(
                                            images@,
                                            name@,
                                            first as nat,
                                            again as nat,
                                            hops,
                                        );
                                    }
                                }
                                return Err(ResolveError::Cyclic);
                            }
                            let next = base.clone();
                            names.push(current);
                            current = next;
                        },
                    }
                },
            }
        }
    }
}

} // verus!
