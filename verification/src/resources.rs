use std::collections::HashMap;
use vstd::prelude::*;

use crate::allocated_types::{
    BufferDataUploadError, IMAGE_LAYOUT_GENERAL, IMAGE_LAYOUT_SHADER_READ_ONLY_OPTIMAL,
};
use crate::descriptors::{
    binding_type_cast, spec_binding_type_cast, BindingData, DescriptorType, ImageDimension,
    UnsupportedDescriptorTypeError,
};

verus! {

broadcast use vstd::std_specs::hash::group_hash_axioms;

/// The resources bound to the slots of one descriptor set, by kind: uniform buffers,
/// storage images, 2D textures and cube maps, each keyed by binding slot.
pub struct DescriptorResources<U, S, T, C> {
    pub uniform_buffers: HashMap<u32, U>,
    pub storage_images: HashMap<u32, S>,
    pub sampled_images: HashMap<u32, T>,
    pub cubemap_images: HashMap<u32, C>,
}

impl<U, S, T, C> DescriptorResources<U, S, T, C> {
    /// No resource at all. Such a set cannot serve a graphics mesh rendering, which
    /// needs at least a uniform at slot 0 for the model matrix.
    pub fn empty() -> (r: Self)
        ensures
            r.uniform_buffers@ == Map::<u32, U>::empty(),
            r.storage_images@ == Map::<u32, S>::empty(),
            r.sampled_images@ == Map::<u32, T>::empty(),
            r.cubemap_images@ == Map::<u32, C>::empty(),
    {
        DescriptorResources {
            uniform_buffers: HashMap::new(),
            storage_images: HashMap::new(),
            sampled_images: HashMap::new(),
            cubemap_images: HashMap::new(),
        }
    }

    /// The descriptor counts of a pool able to hold this set: uniform buffers,
    /// storage images and combined image samplers, each at least one.
    pub fn pool_counts(&self) -> (r: [u32; 3])
        requires
            self.uniform_buffers@.len() <= u32::MAX,
            self.storage_images@.len() <= u32::MAX,
            self.sampled_images@.len() <= u32::MAX,
        ensures
            r[0] == at_least_one(self.uniform_buffers@.len()),
            r[1] == at_least_one(self.storage_images@.len()),
            r[2] == at_least_one(self.sampled_images@.len()),
    {
        let ubo_count = self.uniform_buffers.len() as u32;
        let storage_image_count = self.storage_images.len() as u32;
        let sampled_image_count = self.sampled_images.len() as u32;
        [
            if ubo_count > 1 { ubo_count } else { 1 },
            if storage_image_count > 1 { storage_image_count } else { 1 },
            if sampled_image_count > 1 { sampled_image_count } else { 1 },
        ]
    }
}

/// `n`, raised to one when it is zero.
pub open spec fn at_least_one(n: nat) -> nat {
    if n > 1 { n } else { 1 }
}

/// A slot that the descriptor set does not have.
#[derive(Clone, Copy, Debug, PartialEq, Eq, Structural)]
pub enum ResourceBindingError {
    InvalidBindingSlot { slot: u32, set: u32 },
}

#[derive(Clone, Copy, Debug, PartialEq, Eq, Structural)]
pub enum UniformUpdateError {
    InvalidBindingSlot { slot: u32, set: u32 },
    UniformUploadFailed(BufferDataUploadError),
}

/// Puts `value` at `slot` and hands back what was bound there. A slot that held
/// nothing is an error: the set was built without it. The new value is stored
/// either way.
pub fn replace_binding<V>(map: &mut HashMap<u32, V>, slot: u32, value: V, set: u32) -> (r: Result<
    V,
    ResourceBindingError,
>)
    ensures
        final(map)@ == old(map)@.insert(slot, value),
        match r {
            Ok(previous) => old(map)@.contains_key(slot) && previous == old(map)@[slot],
            Err(e) => !old(map)@.contains_key(slot) && e
                == ResourceBindingError::InvalidBindingSlot { slot, set },
        },
{
    match map.insert(slot, value) {
        Some(previous) => Ok(previous),
        None => Err(ResourceBindingError::InvalidBindingSlot { slot, set }),
    }
}

/// The uniform buffer bound at `slot`, or the error that names the missing slot.
pub fn uniform_at<V>(map: &HashMap<u32, V>, slot: u32, set: u32) -> (r: Result<
    &V,
    UniformUpdateError,
>)
    ensures
        match r {
            Ok(v) => map@.contains_key(slot) && *v == map@[slot],
            Err(e) => !map@.contains_key(slot) && e == UniformUpdateError::InvalidBindingSlot {
                slot,
                set,
            },
        },
{
    match map.get(&slot) {
        Some(v) => Ok(v),
        None => Err(UniformUpdateError::InvalidBindingSlot { slot, set }),
    }
}

/// One descriptor write of a set update: which kind of resource, from which slot.
#[derive(Clone, Copy, Debug, PartialEq, Eq, Structural)]
pub enum DescriptorWrite {
    UniformBuffer { slot: u32 },
    StorageImage { slot: u32 },
    SampledTexture { slot: u32 },
    CubemapTexture { slot: u32 },
}

/// Why a descriptor set cannot be filled from the resources at hand.
#[derive(Clone, Copy, Debug, PartialEq, Eq, Structural)]
pub enum DescriptorPlanError {
    UnsupportedDescriptorType(UnsupportedDescriptorTypeError),
    ResourceNotProvided { set: u32, slot: u32 },
}

/// The writes that fill a descriptor set, in binding order, and the error that
/// stopped the filling early, if one did; the writes listed come before it.
pub struct DescriptorWritePlan {
    pub writes: Vec<DescriptorWrite>,
    pub error: Option<DescriptorPlanError>,
}

/// Where filling a set stands after some bindings.
pub enum PlanStatus {
    Running,
    Stopped(DescriptorPlanError),
    /// A combined image sampler whose image is neither 2D nor a cube map.
    Unimplemented,
}

/// Whether a binding belongs to one of the sets being filled.
pub open spec fn binding_selected(b: BindingData, constraints: Option<Seq<u32>>) -> bool {
    match constraints {
        Some(c) => c.contains(b.set),
        None => true,
    }
}

/// The outcome of one binding: the write it calls for, or how it ends the filling.
pub open spec fn binding_step(
    b: BindingData,
    uniforms: Set<u32>,
    storage_images: Set<u32>,
    textures: Set<u32>,
    cubemaps: Set<u32>,
) -> Result<DescriptorWrite, PlanStatus> {
    let missing = Err(
        PlanStatus::Stopped(DescriptorPlanError::ResourceNotProvided { set: b.set, slot: b.slot }),
    );
    match spec_binding_type_cast(b.descriptor_type) {
        None => Err(
            PlanStatus::Stopped(
                DescriptorPlanError::UnsupportedDescriptorType(
                    UnsupportedDescriptorTypeError(b.descriptor_type),
                ),
            ),
        ),
        Some(DescriptorType::UniformBuffer) => if uniforms.contains(b.slot) {
            Ok(DescriptorWrite::UniformBuffer { slot: b.slot })
        } else {
            missing
        },
        Some(DescriptorType::StorageImage) => if storage_images.contains(b.slot) {
            Ok(DescriptorWrite::StorageImage { slot: b.slot })
        } else {
            missing
        },
        Some(DescriptorType::CombinedImageSampler) => match b.dim {
            ImageDimension::Type2d => if textures.contains(b.slot) {
                Ok(DescriptorWrite::SampledTexture { slot: b.slot })
            } else {
                missing
            },
            ImageDimension::Cube => if cubemaps.contains(b.slot) {
                Ok(DescriptorWrite::CubemapTexture { slot: b.slot })
            } else {
                missing
            },
            _ => Err(PlanStatus::Unimplemented),
        },
    }
}

/// Filling a set binding by binding: the writes so far and where the filling stands.
pub open spec fn plan_writes(
    bindings: Seq<BindingData>,
    constraints: Option<Seq<u32>>,
    uniforms: Set<u32>,
    storage_images: Set<u32>,
    textures: Set<u32>,
    cubemaps: Set<u32>,
) -> (Seq<DescriptorWrite>, PlanStatus)
    decreases bindings.len(),
{
    if bindings.len() == 0 {
        (Seq::empty(), PlanStatus::Running)
    } else {
        let (writes, status) = plan_writes(
            bindings.drop_last(),
            constraints,
            uniforms,
            storage_images,
            textures,
            cubemaps,
        );
        let b = bindings.last();
        if !(status is Running) || !binding_selected(b, constraints) {
            (writes, status)
        } else {
            match binding_step(b, uniforms, storage_images, textures, cubemaps) {
                Ok(w) => (writes.push(w), PlanStatus::Running),
                Err(s) => (writes, s),
            }
        }
    }
}

pub open spec fn constraint_view(set_constraints: Option<&[u32]>) -> Option<Seq<u32>> {
    match set_constraints {
        Some(c) => Some(c@),
        None => None,
    }
}

fn slice_contains(c: &[u32], x: u32) -> (r: bool)
    ensures
        r == c@.contains(x),
{
    let mut i: usize = 0;
    while i < c.len()
        invariant
            i <= c.len(),
            forall|j: int| 0 <= j < i ==> c@[j] != x,
        decreases c.len() - i,
    {
        if c[i] == x {
            assert(c@[i as int] == x);
            return true;
        }
        i = i + 1;
    }
    false
}

impl<U, S, T, C> DescriptorResources<U, S, T, C> {
    /// The descriptor writes that fill a set from these resources: one per binding
    /// of the selected sets (all sets when no selection is given), in binding
    /// order, up to the first binding whose type is unsupported or whose resource
    /// is missing. `None` when a combined image sampler that is neither 2D nor a
    /// cube map is reached, which the engine does not implement.
    pub fn plan_descriptor_writes(
        &self,
        bindings: &Vec<BindingData>,
        set_constraints: Option<&[u32]>,
    ) -> (r: Option<DescriptorWritePlan>)
        ensures
            ({
                let (writes, status) = plan_writes(
                    bindings@,
                    constraint_view(set_constraints),
                    self.uniform_buffers@.dom(),
                    self.storage_images@.dom(),
                    self.sampled_images@.dom(),
                    self.cubemap_images@.dom(),
                );
                match status {
                    PlanStatus::Unimplemented => r is None,
                    PlanStatus::Running => r is Some && r->Some_0.writes@ == writes
                        && r->Some_0.error is None,
                    PlanStatus::Stopped(e) => r is Some && r->Some_0.writes@ == writes
                        && r->Some_0.error == Some(e),
                }
            }),
    {
        let ghost u = self.uniform_buffers@.dom();
        let ghost s = self.storage_images@.dom();
        let ghost t = self.sampled_images@.dom();
        let ghost c = self.cubemap_images@.dom();
        let ghost cons = constraint_view(set_constraints);
        let mut writes: Vec<DescriptorWrite> = Vec::new();
        let mut i: usize = 0;
        while i < bindings.len()
            invariant
                i <= bindings.len(),
                plan_writes(bindings@.take(i as int), cons, u, s, t, c) == (
                    writes@,
                    PlanStatus::Running,
                ),
                u == self.uniform_buffers@.dom(),
                s == self.storage_images@.dom(),
                t == self.sampled_images@.dom(),
                c == self.cubemap_images@.dom(),
                cons == constraint_view(set_constraints),
            decreases bindings.len() - i,
        {
            let b = bindings[i];
            let ghost before = writes@;
            proof {
                assert(bindings@.take(i + 1 as int).drop_last() =~= bindings@.take(i as int));
                assert(bindings@.take(i + 1 as int).last() == b);
            }
            let selected = match set_constraints {
                Some(constraints) => slice_contains(constraints, b.set),
                None => true,
            };
            if selected {
                let missing = DescriptorPlanError::ResourceNotProvided { set: b.set, slot: b.slot };
                let step: Result<DescriptorWrite, Option<DescriptorPlanError>> = match binding_type_cast(
                    b.descriptor_type,
                ) {
                    Err(e) => Err(Some(DescriptorPlanError::UnsupportedDescriptorType(e))),
                    Ok(DescriptorType::UniformBuffer) => if self.uniform_buffers.contains_key(
                        &b.slot,
                    ) {
                        Ok(DescriptorWrite::UniformBuffer { slot: b.slot })
                    } else {
                        Err(Some(missing))
                    },
                    Ok(DescriptorType::StorageImage) => if self.storage_images.contains_key(
                        &b.slot,
                    ) {
                        Ok(DescriptorWrite::StorageImage { slot: b.slot })
                    } else {
                        Err(Some(missing))
                    },
                    Ok(DescriptorType::CombinedImageSampler) => match b.dim {
                        ImageDimension::Type2d => if self.sampled_images.contains_key(&b.slot) {
                            Ok(DescriptorWrite::SampledTexture { slot: b.slot })
                        } else {
                            Err(Some(missing))
                        },
                        ImageDimension::Cube => if self.cubemap_images.contains_key(&b.slot) {
                            Ok(DescriptorWrite::CubemapTexture { slot: b.slot })
                        } else {
                            Err(Some(missing))
                        },
                        _ => Err(None),
                    },
                };
                match step {
                    Ok(w) => {
                        writes.push(w);
                    },
                    Err(Some(e)) => {
                        proof {
                            lemma_plan_stops(bindings@, cons, u, s, t, c, i + 1);
                        }
                        return Some(DescriptorWritePlan { writes, error: Some(e) });
                    },
                    Err(None) => {
                        proof {
                            lemma_plan_stops(bindings@, cons, u, s, t, c, i + 1);
                        }
                        return None;
                    },
                }
            }
            i = i + 1;
        }
        proof {
            assert(bindings@.take(i as int) =~= bindings@);
        }
        Some(DescriptorWritePlan { writes, error: None })
    }
}

/// Once the filling has stopped, the later bindings change nothing.
proof fn lemma_plan_stops(
    bindings: Seq<BindingData>,
    cons: Option<Seq<u32>>,
    u: Set<u32>,
    s: Set<u32>,
    t: Set<u32>,
    c: Set<u32>,
    n: int,
)
    requires
        0 <= n <= bindings.len(),
        !(plan_writes(bindings.take(n), cons, u, s, t, c).1 is Running),
    ensures
        plan_writes(bindings, cons, u, s, t, c) == plan_writes(bindings.take(n), cons, u, s, t, c),
    decreases bindings.len() - n,
{
    if n < bindings.len() {
        assert(bindings.take(n + 1).drop_last() =~= bindings.take(n));
        lemma_plan_stops(bindings, cons, u, s, t, c, n + 1);
    } else {
        assert(bindings.take(n) =~= bindings);
    }
}

/// Whether the engine can fill a binding from these resources: its type is one it
/// fills and the resource of that kind is present at its slot.
pub open spec fn binding_served(
    b: BindingData,
    uniforms: Set<u32>,
    storage_images: Set<u32>,
    textures: Set<u32>,
    cubemaps: Set<u32>,
) -> bool {
    match spec_binding_type_cast(b.descriptor_type) {
        Some(DescriptorType::UniformBuffer) => uniforms.contains(b.slot),
        Some(DescriptorType::StorageImage) => storage_images.contains(b.slot),
        Some(DescriptorType::CombinedImageSampler) => (b.dim == ImageDimension::Type2d
            && textures.contains(b.slot)) || (b.dim == ImageDimension::Cube && cubemaps.contains(
            b.slot,
        )),
        None => false,
    }
}

/// Whether a binding of a kind the engine fills lacks its resource: a uniform
/// buffer, storage image, 2D texture or cube map absent at its slot.
pub open spec fn resource_missing(
    b: BindingData,
    uniforms: Set<u32>,
    storage_images: Set<u32>,
    textures: Set<u32>,
    cubemaps: Set<u32>,
) -> bool {
    match spec_binding_type_cast(b.descriptor_type) {
        Some(DescriptorType::UniformBuffer) => !uniforms.contains(b.slot),
        Some(DescriptorType::StorageImage) => !storage_images.contains(b.slot),
        Some(DescriptorType::CombinedImageSampler) => (b.dim == ImageDimension::Type2d
            && !textures.contains(b.slot)) || (b.dim == ImageDimension::Cube && !cubemaps.contains(
            b.slot,
        )),
        None => false,
    }
}

/// While every selected binding so far can be filled, the filling goes on.
pub proof fn lemma_served_bindings_keep_filling(
    bindings: Seq<BindingData>,
    cons: Option<Seq<u32>>,
    u: Set<u32>,
    s: Set<u32>,
    t: Set<u32>,
    c: Set<u32>,
    k: int,
)
    requires
        0 <= k <= bindings.len(),
        forall|j: int|
            0 <= j < k && binding_selected(#[trigger] bindings[j], cons) ==> binding_served(
                bindings[j],
                u,
                s,
                t,
                c,
            ),
    ensures
        plan_writes(bindings.take(k), cons, u, s, t, c).1 is Running,
    decreases k,
{
    if k > 0 {
        lemma_served_bindings_keep_filling(bindings, cons, u, s, t, c, k - 1);
        assert(bindings.take(k).drop_last() =~= bindings.take(k - 1));
        assert(bindings.take(k).last() == bindings[k - 1]);
        let b = bindings[k - 1];
        if binding_selected(b, cons) {
            assert(binding_served(b, u, s, t, c));
            assert(binding_step(b, u, s, t, c) is Ok);
        }
    }
}

/// A set whose every selected binding can be filled is filled to the end, with no
/// error.
pub proof fn lemma_all_served_fills_the_set(
    bindings: Seq<BindingData>,
    cons: Option<Seq<u32>>,
    u: Set<u32>,
    s: Set<u32>,
    t: Set<u32>,
    c: Set<u32>,
)
    requires
        forall|j: int|
            0 <= j < bindings.len() && binding_selected(#[trigger] bindings[j], cons)
                ==> binding_served(bindings[j], u, s, t, c),
    ensures
        plan_writes(bindings, cons, u, s, t, c).1 is Running,
{
    lemma_served_bindings_keep_filling(bindings, cons, u, s, t, c, bindings.len() as int);
    assert(bindings.take(bindings.len() as int) =~= bindings);
}

/// The first selected binding whose resource is missing stops the filling, and
/// the plan reports exactly that binding's set and slot as not provided.
pub proof fn lemma_missing_resource_is_reported(
    bindings: Seq<BindingData>,
    cons: Option<Seq<u32>>,
    u: Set<u32>,
    s: Set<u32>,
    t: Set<u32>,
    c: Set<u32>,
    k: int,
)
    requires
        0 <= k < bindings.len(),
        forall|j: int|
            0 <= j < k && binding_selected(#[trigger] bindings[j], cons) ==> binding_served(
                bindings[j],
                u,
                s,
                t,
                c,
            ),
        binding_selected(bindings[k], cons),
        resource_missing(bindings[k], u, s, t, c),
    ensures
        plan_writes(bindings, cons, u, s, t, c).1 == PlanStatus::Stopped(
            DescriptorPlanError::ResourceNotProvided { set: bindings[k].set, slot: bindings[k].slot },
        ),
{
    lemma_served_bindings_keep_filling(bindings, cons, u, s, t, c, k);
    assert(bindings.take(k + 1).drop_last() =~= bindings.take(k));
    assert(bindings.take(k + 1).last() == bindings[k]);
    lemma_plan_stops(bindings, cons, u, s, t, c, k + 1);
}

/// The kind of an image a descriptor set binds, which decides the layout shaders
/// need it in while rendering.
#[derive(Clone, Copy, Debug, PartialEq, Eq, Structural)]
pub enum BoundImageKind {
    Storage,
    Sampled,
}

/// Storage images are read and written in the general layout; sampled textures
/// are read in the shader read-only layout.
pub open spec fn render_layout(kind: BoundImageKind) -> i32 {
    match kind {
        BoundImageKind::Storage => IMAGE_LAYOUT_GENERAL,
        BoundImageKind::Sampled => IMAGE_LAYOUT_SHADER_READ_ONLY_OPTIMAL,
    }
}

/// A change of layout of the image at position `image` of a list of images.
#[derive(Clone, Copy, Debug, PartialEq, Eq, Structural)]
pub struct LayoutTransition {
    pub image: usize,
    pub from: i32,
    pub to: i32,
}

/// The layout changes that bring bound images, each given with its kind and its
/// own layout, into the layouts rendering needs (or, with `restore`, back into
/// their own layouts afterwards). An image already in the needed layout changes
/// nothing.
pub open spec fn layout_transitions(images: Seq<(BoundImageKind, i32)>, restore: bool) -> Seq<
    LayoutTransition,
>
    decreases images.len(),
{
    if images.len() == 0 {
        Seq::empty()
    } else {
        let n = images.len() - 1;
        let earlier = layout_transitions(images.drop_last(), restore);
        let own = images.last().1;
        let needed = render_layout(images.last().0);
        if own == needed {
            earlier
        } else if restore {
            earlier.push(LayoutTransition { image: n as usize, from: needed, to: own })
        } else {
            earlier.push(LayoutTransition { image: n as usize, from: own, to: needed })
        }
    }
}

/// Plans the layout changes of the images bound to a descriptor set around
/// rendering: before it when `restore` is false, after it when true.
pub fn plan_layout_transitions(images: &Vec<(BoundImageKind, i32)>, restore: bool) -> (r: Vec<
    LayoutTransition,
>)
    ensures
        r@ == layout_transitions(images@, restore),
{
    let mut out: Vec<LayoutTransition> = Vec::new();
    let mut i: usize = 0;
    while i < images.len()
        invariant
            i <= images@.len(),
            out@ == layout_transitions(images@.take(i as int), restore),
        decreases images@.len() - i,
    {
        let (kind, own) = images[i];
        proof {
            assert(images@.take(i + 1 as int).drop_last() =~= images@.take(i as int));
        }
        let needed = match kind {
            BoundImageKind::Storage => IMAGE_LAYOUT_GENERAL,
            BoundImageKind::Sampled => IMAGE_LAYOUT_SHADER_READ_ONLY_OPTIMAL,
        };
        if own != needed {
            if restore {
                out.push(LayoutTransition { image: i, from: needed, to: own });
            } else {
                out.push(LayoutTransition { image: i, from: own, to: needed });
            }
        }
        i = i + 1;
    }
    proof {
        assert(images@.take(i as int) =~= images@);
    }
    out
}

/// A layout change run backwards.
pub open spec fn reversed_transition(t: LayoutTransition) -> LayoutTransition {
    LayoutTransition { image: t.image, from: t.to, to: t.from }
}

/// Restoring undoes preparing: the changes made after rendering are those made
/// before it, for the same images in the same order, each run backwards, so every
/// image ends in the layout it started in.
pub proof fn lemma_restore_undoes_prepare(images: Seq<(BoundImageKind, i32)>)
    ensures
        layout_transitions(images, true) == layout_transitions(images, false).map_values(
            |t: LayoutTransition| reversed_transition(t),
        ),
    decreases images.len(),
{
    if images.len() > 0 {
        lemma_restore_undoes_prepare(images.drop_last());
        let f = |t: LayoutTransition| reversed_transition(t);
        let prepared = layout_transitions(images.drop_last(), false);
        let n = images.len() - 1;
        let own = images.last().1;
        let needed = render_layout(images.last().0);
        if own != needed {
            assert(prepared.push(LayoutTransition { image: n as usize, from: own, to: needed })
                .map_values(f) =~= prepared.map_values(f).push(
                LayoutTransition { image: n as usize, from: needed, to: own },
            ));
        }
    }
}

} // verus!
