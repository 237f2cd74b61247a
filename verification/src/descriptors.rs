use vstd::prelude::*;

verus! {

/// Shader stage bits, with the values Vulkan gives `VkShaderStageFlagBits`.
pub const SHADER_STAGE_VERTEX: u32 = 0x1;

pub const SHADER_STAGE_FRAGMENT: u32 = 0x10;

pub const SHADER_STAGE_COMPUTE: u32 = 0x20;

/// The kind of a descriptor binding, as reflection of a SPIR-V module reports it.
#[derive(Clone, Copy, Debug, PartialEq, Eq, Structural)]
pub enum ShaderDescriptorType {
    Undefined,
    Sampler,
    CombinedImageSampler,
    SampledImage,
    StorageImage,
    UniformTexelBuffer,
    StorageTexelBuffer,
    UniformBuffer,
    StorageBuffer,
    UniformBufferDynamic,
    StorageBufferDynamic,
    InputAttachment,
    AccelerationStructureNV,
}

/// The dimensionality of an image binding, as reflection reports it.
#[derive(Clone, Copy, Debug, PartialEq, Eq, Structural)]
pub enum ImageDimension {
    Undefined,
    Type1d,
    Type2d,
    Type3d,
    Cube,
    Rect,
    Buffer,
    SubPassData,
}

/// The descriptor types the engine knows how to create and fill.
#[derive(Clone, Copy, Debug, PartialEq, Eq, Structural)]
pub enum DescriptorType {
    UniformBuffer,
    StorageImage,
    CombinedImageSampler,
}

/// A binding that a shader declares but whose type the engine cannot serve.
#[derive(Clone, Copy, Debug, PartialEq, Eq, Structural)]
pub struct UnsupportedDescriptorTypeError(pub ShaderDescriptorType);

/// What the engine keeps of one reflected descriptor binding.
#[derive(Clone, Copy, Debug, PartialEq, Eq, Structural)]
pub struct BindingData {
    pub set: u32,
    pub slot: u32,
    pub descriptor_type: ShaderDescriptorType,
    pub size: u32,
    pub dim: ImageDimension,
}

/// One binding of a descriptor set layout.
#[derive(Clone, Copy, Debug, PartialEq, Eq, Structural)]
pub struct LayoutBinding {
    pub binding: u32,
    pub descriptor_type: DescriptorType,
    pub descriptor_count: u32,
    pub stage_flags: u32,
}

/// The descriptor type a reflected type maps to, if the engine supports it.
pub open spec fn spec_binding_type_cast(t: ShaderDescriptorType) -> Option<DescriptorType> {
    match t {
        ShaderDescriptorType::UniformBuffer => Some(DescriptorType::UniformBuffer),
        ShaderDescriptorType::StorageImage => Some(DescriptorType::StorageImage),
        ShaderDescriptorType::CombinedImageSampler => Some(DescriptorType::CombinedImageSampler),
        _ => None,
    }
}

pub fn binding_type_cast(descriptor_type: ShaderDescriptorType) -> (r: Result<
    DescriptorType,
    UnsupportedDescriptorTypeError,
>)
    ensures
        match spec_binding_type_cast(descriptor_type) {
            Some(t) => r == Ok::<DescriptorType, UnsupportedDescriptorTypeError>(t),
            None => r == Err::<DescriptorType, UnsupportedDescriptorTypeError>(
                UnsupportedDescriptorTypeError(descriptor_type),
            ),
        },
{
    match descriptor_type {
        ShaderDescriptorType::UniformBuffer => Ok(DescriptorType::UniformBuffer),
        ShaderDescriptorType::StorageImage => Ok(DescriptorType::StorageImage),
        ShaderDescriptorType::CombinedImageSampler => Ok(DescriptorType::CombinedImageSampler),
        _ => Err(UnsupportedDescriptorTypeError(descriptor_type)),
    }
}

/// Every binding of every stage, each paired with the stage it was declared in,
/// stage by stage in the given order.
pub open spec fn stage_entries(stage_bindings: Seq<(Vec<BindingData>, u32)>) -> Seq<
    (BindingData, u32),
>
    decreases stage_bindings.len(),
{
    if stage_bindings.len() == 0 {
        Seq::empty()
    } else {
        let last = stage_bindings.last();
        stage_entries(stage_bindings.drop_last()) + last.0@.map_values(
            |b: BindingData| (b, last.1),
        )
    }
}

/// Lists each binding together with the stage flags of the stage that declares it.
pub fn flatten_stage_bindings(stage_bindings: &Vec<(Vec<BindingData>, u32)>) -> (r: Vec<
    (BindingData, u32),
>)
    ensures
        r@ == stage_entries(stage_bindings@),
{
    let mut r: Vec<(BindingData, u32)> = Vec::new();
    let mut i: usize = 0;
    while i < stage_bindings.len()
        invariant
            i <= stage_bindings.len(),
            r@ == stage_entries(stage_bindings@.take(i as int)),
        decreases stage_bindings.len() - i,
    {
        let stage = stage_bindings[i].1;
        let bindings = &stage_bindings[i].0;
        let ghost before = r@;
        let mut j: usize = 0;
        while j < bindings.len()
            invariant
                j <= bindings.len(),
                r@ == before + bindings@.take(j as int).map_values(
                    |b: BindingData| (b, stage),
                ),
            decreases bindings.len() - j,
        {
            r.push((bindings[j], stage));
            j = j + 1;
            proof {
                assert(bindings@.take(j as int).map_values(|b: BindingData| (b, stage))
                    =~= bindings@.take(j - 1 as int).map_values(|b: BindingData| (b, stage)).push(
                    (bindings@[j - 1 as int], stage),
                ));
            }
        }
        proof {
            assert(bindings@.take(j as int) =~= bindings@);
            assert(stage_bindings@.take(i + 1 as int).drop_last() =~= stage_bindings@.take(
                i as int,
            ));
        }
        i = i + 1;
    }
    proof {
        assert(stage_bindings@.take(i as int) =~= stage_bindings@);
    }
    r
}

/// Whether an entry takes part in the layout of set `set` as a binding of type `ty`.
pub open spec fn entry_in_group(e: (BindingData, u32), set: u32, ty: DescriptorType) -> bool {
    e.0.set == set && spec_binding_type_cast(e.0.descriptor_type) == Some(ty)
}

/// The reflected type of the first entry of set `set` whose type the engine cannot serve.
pub open spec fn first_unsupported(entries: Seq<(BindingData, u32)>, set: u32) -> Option<
    ShaderDescriptorType,
>
    decreases entries.len(),
{
    if entries.len() == 0 {
        None
    } else {
        let earlier = first_unsupported(entries.drop_last(), set);
        let e = entries.last();
        if earlier is Some {
            earlier
        } else if e.0.set == set && spec_binding_type_cast(e.0.descriptor_type) is None {
            Some(e.0.descriptor_type)
        } else {
            None
        }
    }
}

/// The position of the layout binding for `slot`, or -1 when there is none.
pub open spec fn slot_position(acc: Seq<LayoutBinding>, slot: u32) -> int
    decreases acc.len(),
{
    if acc.len() == 0 {
        -1
    } else if acc.last().binding == slot {
        acc.len() - 1
    } else {
        slot_position(acc.drop_last(), slot)
    }
}

/// Folds one entry into the layout bindings of one descriptor type: a slot seen
/// before gains the entry's stages, a new slot is appended.
pub open spec fn merge_step(
    acc: Seq<LayoutBinding>,
    e: (BindingData, u32),
    set: u32,
    ty: DescriptorType,
) -> Seq<LayoutBinding> {
    if entry_in_group(e, set, ty) {
        let p = slot_position(acc, e.0.slot);
        if p >= 0 {
            acc.update(p, LayoutBinding { stage_flags: acc[p].stage_flags | e.1, ..acc[p] })
        } else {
            acc.push(
                LayoutBinding {
                    binding: e.0.slot,
                    descriptor_type: ty,
                    descriptor_count: 1,
                    stage_flags: e.1,
                },
            )
        }
    } else {
        acc
    }
}

/// The layout bindings of type `ty` in set `set`: one per slot, in the order the
/// slots first appear.
pub open spec fn merged_group(entries: Seq<(BindingData, u32)>, set: u32, ty: DescriptorType) -> Seq<
    LayoutBinding,
>
    decreases entries.len(),
{
    if entries.len() == 0 {
        Seq::empty()
    } else {
        merge_step(merged_group(entries.drop_last(), set, ty), entries.last(), set, ty)
    }
}

/// The bindings of the layout of set `set`: uniform buffers, then storage images,
/// then combined image samplers.
pub open spec fn merged_layout_bindings(entries: Seq<(BindingData, u32)>, set: u32) -> Seq<
    LayoutBinding,
> {
    merged_group(entries, set, DescriptorType::UniformBuffer) + merged_group(
        entries,
        set,
        DescriptorType::StorageImage,
    ) + merged_group(entries, set, DescriptorType::CombinedImageSampler)
}

fn find_slot(acc: &Vec<LayoutBinding>, slot: u32) -> (r: Option<usize>)
    ensures
        match r {
            Some(p) => p as int == slot_position(acc@, slot),
            None => slot_position(acc@, slot) == -1,
        },
{
    let mut i: usize = acc.len();
    proof {
        assert(acc@.take(i as int) =~= acc@);
    }
    while i > 0
        invariant
            i <= acc.len(),
            slot_position(acc@, slot) == slot_position(acc@.take(i as int), slot),
        decreases i,
    {
        if acc[i - 1].binding == slot {
            proof {
                assert(acc@.take(i as int).last() == acc@[i - 1]);
            }
            return Some(i - 1);
        }
        proof {
            assert(acc@.take(i as int).drop_last() =~= acc@.take(i - 1 as int));
        }
        i = i - 1;
    }
    proof {
        assert(acc@.take(0) =~= Seq::<LayoutBinding>::empty());
    }
    None
}

proof fn lemma_slot_position_range(acc: Seq<LayoutBinding>, slot: u32)
    ensures
        -1 <= slot_position(acc, slot) < acc.len(),
        slot_position(acc, slot) >= 0 ==> acc[slot_position(acc, slot)].binding == slot,
    decreases acc.len(),
{
    if acc.len() > 0 && acc.last().binding != slot {
        lemma_slot_position_range(acc.drop_last(), slot);
    }
}

fn merge_group_into(
    out: &mut Vec<LayoutBinding>,
    entries: &Vec<(BindingData, u32)>,
    set: u32,
    ty: DescriptorType,
)
    ensures
        final(out)@ == old(out)@ + merged_group(entries@, set, ty),
{
    let mut group: Vec<LayoutBinding> = Vec::new();
    let mut i: usize = 0;
    while i < entries.len()
        invariant
            i <= entries.len(),
            group@ == merged_group(entries@.take(i as int), set, ty),
        decreases entries.len() - i,
    {
        let e = entries[i];
        proof {
            assert(entries@.take(i + 1 as int).drop_last() =~= entries@.take(i as int));
            assert(entries@.take(i + 1 as int).last() == e);
        }
        let in_group = e.0.set == set && match binding_type_cast(e.0.descriptor_type) {
            Ok(t) => t == ty,
            Err(_) => false,
        };
        if in_group {
            match find_slot(&group, e.0.slot) {
                Some(p) => {
                    proof {
                        lemma_slot_position_range(group@, e.0.slot);
                    }
                    let old_binding = group[p];
                    group.set(
                        p,
                        LayoutBinding {
                            stage_flags: old_binding.stage_flags | e.1,
                            ..old_binding
                        },
                    );
                },
                None => {
                    group.push(
                        LayoutBinding {
                            binding: e.0.slot,
                            descriptor_type: ty,
                            descriptor_count: 1,
                            stage_flags: e.1,
                        },
                    );
                },
            }
        }
        i = i + 1;
    }
    proof {
        assert(entries@.take(i as int) =~= entries@);
    }
    let mut k: usize = 0;
    let ghost start = out@;
    while k < group.len()
        invariant
            k <= group.len(),
            out@ == start + group@.take(k as int),
        decreases group.len() - k,
    {
        out.push(group[k]);
        k = k + 1;
        proof {
            assert(group@.take(k as int) =~= group@.take(k - 1 as int).push(group@[k - 1 as int]));
        }
    }
    proof {
        assert(group@.take(k as int) =~= group@);
    }
}

/// Merges the bindings that several shader stages declare for descriptor set
/// `set_level` into the bindings of one layout: a slot declared by several stages
/// becomes a single binding visible to all of them. Fails on the first binding of
/// the set whose type the engine does not support.
pub fn merge_layout_bindings(set_level: u32, entries: &Vec<(BindingData, u32)>) -> (r: Result<
    Vec<LayoutBinding>,
    UnsupportedDescriptorTypeError,
>)
    ensures
        match first_unsupported(entries@, set_level) {
            Some(t) => r == Err::<Vec<LayoutBinding>, UnsupportedDescriptorTypeError>(
                UnsupportedDescriptorTypeError(t),
            ),
            None => r is Ok && r->Ok_0@ == merged_layout_bindings(entries@, set_level),
        },
{
    let mut i: usize = 0;
    while i < entries.len()
        invariant
            i <= entries.len(),
            first_unsupported(entries@.take(i as int), set_level) is None,
        decreases entries.len() - i,
    {
        let e = entries[i];
        proof {
            assert(entries@.take(i + 1 as int).drop_last() =~= entries@.take(i as int));
            assert(entries@.take(i + 1 as int).last() == e);
        }
        if e.0.set == set_level {
            match binding_type_cast(e.0.descriptor_type) {
                Ok(_) => {},
                Err(err) => {
                    proof {
                        lemma_first_unsupported_prefix(entries@, set_level, i + 1);
                    }
                    return Err(err);
                },
            }
        }
        i = i + 1;
    }
    proof {
        assert(entries@.take(i as int) =~= entries@);
    }
    let mut out: Vec<LayoutBinding> = Vec::new();
    merge_group_into(&mut out, entries, set_level, DescriptorType::UniformBuffer);
    merge_group_into(&mut out, entries, set_level, DescriptorType::StorageImage);
    merge_group_into(&mut out, entries, set_level, DescriptorType::CombinedImageSampler);
    proof {
        assert(out@ =~= merged_layout_bindings(entries@, set_level));
    }
    Ok(out)
}

/// Once a prefix holds an unsupported binding, every longer prefix reports that one.
proof fn lemma_first_unsupported_prefix(entries: Seq<(BindingData, u32)>, set: u32, n: int)
    requires
        0 <= n <= entries.len(),
        first_unsupported(entries.take(n), set) is Some,
    ensures
        first_unsupported(entries, set) == first_unsupported(entries.take(n), set),
    decreases entries.len() - n,
{
    if n < entries.len() {
        assert(entries.take(n + 1).drop_last() =~= entries.take(n));
        lemma_first_unsupported_prefix(entries, set, n + 1);
    } else {
        assert(entries.take(n) =~= entries);
    }
}


/// The stage flags that the entries of set `set` and type `ty` declare for `slot`,
/// or-ed together.
pub open spec fn group_stages(
    entries: Seq<(BindingData, u32)>,
    set: u32,
    ty: DescriptorType,
    slot: u32,
) -> u32
    decreases entries.len(),
{
    if entries.len() == 0 {
        0
    } else {
        let prev = group_stages(entries.drop_last(), set, ty, slot);
        let e = entries.last();
        if entry_in_group(e, set, ty) && e.0.slot == slot {
            prev | e.1
        } else {
            prev
        }
    }
}

/// Whether some entry of set `set` and type `ty` declares `slot`.
pub open spec fn group_has_slot(
    entries: Seq<(BindingData, u32)>,
    set: u32,
    ty: DescriptorType,
    slot: u32,
) -> bool
    decreases entries.len(),
{
    if entries.len() == 0 {
        false
    } else {
        let e = entries.last();
        group_has_slot(entries.drop_last(), set, ty, slot) || (entry_in_group(e, set, ty)
            && e.0.slot == slot)
    }
}

proof fn lemma_slot_position_absent(acc: Seq<LayoutBinding>, slot: u32)
    requires
        slot_position(acc, slot) == -1,
    ensures
        forall|i: int| 0 <= i < acc.len() ==> #[trigger] acc[i].binding != slot,
    decreases acc.len(),
{
    if acc.len() > 0 {
        lemma_slot_position_absent(acc.drop_last(), slot);
        assert forall|i: int| 0 <= i < acc.len() implies #[trigger] acc[i].binding != slot by {
            if i < acc.len() - 1 {
                assert(acc.drop_last()[i] == acc[i]);
            }
        }
    }
}

proof fn lemma_slot_position_update(acc: Seq<LayoutBinding>, p: int, x: LayoutBinding, slot: u32)
    requires
        0 <= p < acc.len(),
        x.binding == acc[p].binding,
    ensures
        slot_position(acc.update(p, x), slot) == slot_position(acc, slot),
    decreases acc.len(),
{
    let u = acc.update(p, x);
    if p == acc.len() - 1 {
        assert(u.drop_last() =~= acc.drop_last());
    } else {
        assert(u.drop_last() =~= acc.drop_last().update(p, x));
        lemma_slot_position_update(acc.drop_last(), p, x, slot);
    }
}

proof fn lemma_slot_position_push(acc: Seq<LayoutBinding>, x: LayoutBinding, slot: u32)
    ensures
        slot_position(acc.push(x), slot) == if x.binding == slot {
            acc.len() as int
        } else {
            slot_position(acc, slot)
        },
{
    assert(acc.push(x).drop_last() =~= acc);
}

/// Within the layout bindings of one descriptor type no slot appears twice.
pub proof fn lemma_merged_group_distinct(
    entries: Seq<(BindingData, u32)>,
    set: u32,
    ty: DescriptorType,
)
    ensures
        forall|i: int, j: int|
            0 <= i < j < merged_group(entries, set, ty).len() ==> #[trigger] merged_group(
                entries,
                set,
                ty,
            )[i].binding != #[trigger] merged_group(entries, set, ty)[j].binding,
    decreases entries.len(),
{
    if entries.len() > 0 {
        let acc = merged_group(entries.drop_last(), set, ty);
        let e = entries.last();
        lemma_merged_group_distinct(entries.drop_last(), set, ty);
        if entry_in_group(e, set, ty) {
            let p = slot_position(acc, e.0.slot);
            lemma_slot_position_range(acc, e.0.slot);
            if p == -1 {
                lemma_slot_position_absent(acc, e.0.slot);
            }
        }
    }
}

/// A slot has a layout binding of type `ty` exactly when some stage declares it
/// with that type in the set; the binding is then visible to every stage that
/// declares the slot, and to no other.
pub proof fn lemma_merged_group_slot(
    entries: Seq<(BindingData, u32)>,
    set: u32,
    ty: DescriptorType,
    slot: u32,
)
    ensures
        (slot_position(merged_group(entries, set, ty), slot) >= 0) == group_has_slot(
            entries,
            set,
            ty,
            slot,
        ),
        group_has_slot(entries, set, ty, slot) ==> {
            let r = merged_group(entries, set, ty);
            let b = r[slot_position(r, slot)];
            &&& b.binding == slot
            &&& b.descriptor_type == ty
            &&& b.descriptor_count == 1
            &&& b.stage_flags == group_stages(entries, set, ty, slot)
        },
        !group_has_slot(entries, set, ty, slot) ==> group_stages(entries, set, ty, slot) == 0,
    decreases entries.len(),
{
    lemma_slot_position_range(merged_group(entries, set, ty), slot);
    if entries.len() > 0 {
        let acc = merged_group(entries.drop_last(), set, ty);
        let e = entries.last();
        lemma_merged_group_slot(entries.drop_last(), set, ty, slot);
        lemma_slot_position_range(acc, slot);
        if entry_in_group(e, set, ty) {
            let p = slot_position(acc, e.0.slot);
            lemma_slot_position_range(acc, e.0.slot);
            if p >= 0 {
                let x = LayoutBinding { stage_flags: acc[p].stage_flags | e.1, ..acc[p] };
                lemma_slot_position_update(acc, p, x, slot);
                lemma_merged_group_slot(entries.drop_last(), set, ty, e.0.slot);
            } else {
                let x = LayoutBinding {
                    binding: e.0.slot,
                    descriptor_type: ty,
                    descriptor_count: 1,
                    stage_flags: e.1,
                };
                lemma_slot_position_push(acc, x, slot);
                lemma_merged_group_slot(entries.drop_last(), set, ty, e.0.slot);
                assert(forall|f: u32| #[trigger] (0u32 | f) == f) by (bit_vector);
            }
        }
    }
}

} // verus!
