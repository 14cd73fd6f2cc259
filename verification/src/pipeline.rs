//! Pipeline descriptions and the fixed-function state they select.

use vstd::prelude::*;

verus! {

#[derive(Clone, Copy, Debug, PartialEq, Eq, Structural)]
pub enum BlendType {
    Disabled,
    Alpha,
    Transparent,
}

#[derive(Clone, Copy, Debug, PartialEq, Eq, Structural)]
pub enum DepthStencilType {
    Disable,
    Enable,
}

#[derive(Clone, Copy, Debug, PartialEq, Eq, Structural)]
pub enum RasterizationType {
    Standard,
}

/// A compute pipeline, known by the name of its shader.
pub struct ComputePipelineDescription {
    pub compute_name: String,
}

impl ComputePipelineDescription {
    pub fn new(compute_name: &str) -> (description: ComputePipelineDescription)
        ensures
            description.compute_name@ == compute_name@,
    {
        ComputePipelineDescription { compute_name: compute_name.to_owned() }
    }
}

/// One binding of a descriptor set layout.
#[derive(Clone, Copy, Debug, PartialEq, Eq, Structural)]
pub struct DescriptorBinding {
    pub binding: u32,
    pub descriptor_type: i32,
    pub descriptor_count: u32,
    pub stage_flags: u32,
}

/// The bindings of one descriptor set.
pub struct SetBindings {
    pub set: u32,
    pub bindings: Vec<DescriptorBinding>,
}

pub open spec fn with_stage(b: DescriptorBinding, stage: u32) -> DescriptorBinding {
    DescriptorBinding { stage_flags: stage, ..b }
}

/// Two bindings describe the same slot: same binding number, count and type.
pub open spec fn same_slot(a: DescriptorBinding, b: DescriptorBinding) -> bool {
    a.binding == b.binding && a.descriptor_count == b.descriptor_count && a.descriptor_type == b.descriptor_type
}

/// The first position of a binding for the same slot as `b`, or -1.
pub open spec fn find_slot(cur: Seq<DescriptorBinding>, b: DescriptorBinding) -> int
    decreases cur.len(),
{
    if cur.len() == 0 {
        -1
    } else {
        let r = find_slot(cur.drop_last(), b);
        if r >= 0 { r } else if same_slot(cur.last(), b) { cur.len() - 1 } else { -1 }
    }
}

/// Adds a fragment-stage binding: a binding for the same slot gains the
/// fragment stage; otherwise the binding is added for the fragment stage.
pub open spec fn merge_fragment(cur: Seq<DescriptorBinding>, b: DescriptorBinding) -> Seq<DescriptorBinding> {
    let k = find_slot(cur, b);
    if k >= 0 {
        cur.update(k, with_stage(cur[k], cur[k].stage_flags | crate::vk::SHADER_STAGE_FRAGMENT))
    } else {
        cur.push(with_stage(b, crate::vk::SHADER_STAGE_FRAGMENT))
    }
}

pub open spec fn merge_fragments(cur: Seq<DescriptorBinding>, bs: Seq<DescriptorBinding>) -> Seq<DescriptorBinding>
    decreases bs.len(),
{
    if bs.len() == 0 {
        cur
    } else {
        merge_fragment(merge_fragments(cur, bs.drop_last()), bs.last())
    }
}

/// The sets of a shader as a map from set number to bindings.
pub open spec fn sets_map(sets: Seq<SetBindings>) -> Map<u32, Seq<DescriptorBinding>> {
    Map::new(
        |s: u32| exists|i: int| 0 <= i < sets.len() && #[trigger] sets[i].set == s,
        |s: u32| sets[choose|i: int| 0 <= i < sets.len() && #[trigger] sets[i].set == s].bindings@,
    )
}

/// No set number occurs twice.
pub open spec fn distinct_sets(sets: Seq<SetBindings>) -> bool {
    forall|i: int, j: int| 0 <= i < j < sets.len() ==> sets[i].set != sets[j].set
}

/// The bindings of set `s` of a graphics pipeline: the vertex shader's,
/// all for the vertex stage, then the fragment shader's merged in.
pub open spec fn merged_set(vertex: Map<u32, Seq<DescriptorBinding>>, fragment: Map<u32, Seq<DescriptorBinding>>, s: u32) -> Seq<DescriptorBinding> {
    let base = if vertex.contains_key(s) {
        vertex[s].map_values(|b: DescriptorBinding| with_stage(b, crate::vk::SHADER_STAGE_VERTEX))
    } else {
        Seq::empty()
    };
    if fragment.contains_key(s) { merge_fragments(base, fragment[s]) } else { base }
}

pub(crate) proof fn lemma_sets_map_at(sets: Seq<SetBindings>, i: int)
    requires
        distinct_sets(sets),
        0 <= i < sets.len(),
    ensures
        sets_map(sets).contains_key(sets[i].set),
        sets_map(sets)[sets[i].set] == sets[i].bindings@,
{
    let s = sets[i].set;
    let k = choose|k: int| 0 <= k < sets.len() && #[trigger] sets[k].set == s;
    if k != i {
        if k < i {
            assert(sets[k].set != sets[i].set);
        } else {
            assert(sets[i].set != sets[k].set);
        }
    }
}

/// The position of set `s` in `sets`, if present.
pub(crate) fn find_set(sets: &Vec<SetBindings>, s: u32) -> (position: Option<usize>)
    ensures
        match position {
            Some(i) => i < sets.len() && sets@[i as int].set == s,
            None => forall|i: int| 0 <= i < sets.len() ==> sets@[i].set != s,
        },
{
    let mut i: usize = 0;
    while i < sets.len()
        invariant
            0 <= i <= sets.len(),
            forall|j: int| 0 <= j < i ==> sets@[j].set != s,
        decreases sets.len() - i,
    {
        if sets[i].set == s {
            return Some(i);
        }
        i = i + 1;
    }
    None
}

/// Sets the stage of every binding.
fn bindings_for_stage(bindings: &Vec<DescriptorBinding>, stage: u32) -> (out: Vec<DescriptorBinding>)
    ensures
        out@ == bindings@.map_values(|b: DescriptorBinding| with_stage(b, stage)),
{
    let mut out: Vec<DescriptorBinding> = Vec::new();
    let mut i: usize = 0;
    while i < bindings.len()
        invariant
            0 <= i <= bindings.len(),
            out@ == bindings@.take(i as int).map_values(|b: DescriptorBinding| with_stage(b, stage)),
        decreases bindings.len() - i,
    {
        out.push(DescriptorBinding { stage_flags: stage, ..bindings[i] });
        proof {
            assert(bindings@.take(i + 1) == bindings@.take(i as int).push(bindings@[i as int]));
            assert(out@ =~= bindings@.take(i + 1).map_values(|b: DescriptorBinding| with_stage(b, stage)));
        }
        i = i + 1;
    }
    proof {
        assert(bindings@.take(bindings.len() as int) == bindings@);
    }
    out
}

/// The first position of a binding for the same slot as `b`.
fn find_binding(cur: &Vec<DescriptorBinding>, b: DescriptorBinding) -> (position: Option<usize>)
    ensures
        match position {
            Some(k) => k == find_slot(cur@, b) && k < cur.len(),
            None => find_slot(cur@, b) == -1,
        },
{
    let mut i: usize = 0;
    while i < cur.len()
        invariant
            0 <= i <= cur.len(),
            find_slot(cur@.take(i as int), b) == -1,
        decreases cur.len() - i,
    {
        proof {
            assert(cur@.take(i + 1).drop_last() == cur@.take(i as int));
        }
        let x = cur[i];
        if x.binding == b.binding && x.descriptor_count == b.descriptor_count && x.descriptor_type == b.descriptor_type {
            proof {
                lemma_find_slot_prefix(cur@, b, i + 1);
            }
            return Some(i);
        }
        i = i + 1;
    }
    proof {
        assert(cur@.take(cur.len() as int) == cur@);
    }
    None
}

/// A match found in a prefix is the first match of the whole sequence.
proof fn lemma_find_slot_prefix(cur: Seq<DescriptorBinding>, b: DescriptorBinding, n: int)
    requires
        0 <= n <= cur.len(),
        find_slot(cur.take(n), b) >= 0,
    ensures
        find_slot(cur, b) == find_slot(cur.take(n), b),
    decreases cur.len() - n,
{
    if n < cur.len() {
        assert(cur.take(n + 1).drop_last() == cur.take(n));
        lemma_find_slot_prefix(cur, b, n + 1);
    } else {
        assert(cur.take(n) == cur);
    }
}

/// Merges the fragment bindings `bs` into `cur`.
fn merge_fragment_bindings(cur: &mut Vec<DescriptorBinding>, bs: &Vec<DescriptorBinding>)
    ensures
        final(cur)@ == merge_fragments(old(cur)@, bs@),
{
    let ghost start = cur@;
    let mut i: usize = 0;
    while i < bs.len()
        invariant
            0 <= i <= bs.len(),
            cur@ == merge_fragments(start, bs@.take(i as int)),
        decreases bs.len() - i,
    {
        let b = bs[i];
        proof {
            assert(bs@.take(i + 1).drop_last() == bs@.take(i as int));
            assert(bs@.take(i + 1).last() == b);
        }
        match find_binding(cur, b) {
            Some(k) => {
                let dupe = cur[k];
                cur.set(k, DescriptorBinding { stage_flags: dupe.stage_flags | crate::vk::SHADER_STAGE_FRAGMENT, ..dupe });
            },
            None => {
                cur.push(DescriptorBinding { stage_flags: crate::vk::SHADER_STAGE_FRAGMENT, ..b });
            },
        }
        i = i + 1;
    }
    proof {
        assert(bs@.take(bs.len() as int) == bs@);
    }
}

/// The descriptor set bindings of a graphics pipeline, set by set (see
/// `merged_set`). Bindings used by both shaders appear once, for both
/// stages.
pub fn merge_graphics_bindings(vertex: &Vec<SetBindings>, fragment: &Vec<SetBindings>) -> (full: Vec<SetBindings>)
    requires
        distinct_sets(vertex@),
        distinct_sets(fragment@),
    ensures
        distinct_sets(full@),
        forall|s: u32| #[trigger] sets_map(full@).contains_key(s)
            <==> sets_map(vertex@).contains_key(s) || sets_map(fragment@).contains_key(s),
        forall|s: u32| #[trigger] sets_map(full@).contains_key(s)
            ==> sets_map(full@)[s] == merged_set(sets_map(vertex@), sets_map(fragment@), s),
{
    let ghost vm = sets_map(vertex@);
    let ghost fm = sets_map(fragment@);
    let mut full: Vec<SetBindings> = Vec::new();
    let mut i: usize = 0;
    while i < vertex.len()
        invariant
            0 <= i <= vertex.len(),
            distinct_sets(vertex@),
            vm == sets_map(vertex@),
            full.len() == i,
            forall|j: int| 0 <= j < i ==> #[trigger] full@[j].set == vertex@[j].set
                && full@[j].bindings@ == vertex@[j].bindings@.map_values(
                    |b: DescriptorBinding| with_stage(b, crate::vk::SHADER_STAGE_VERTEX)),
        decreases vertex.len() - i,
    {
        let bindings = bindings_for_stage(&vertex[i].bindings, crate::vk::SHADER_STAGE_VERTEX);
        let ghost before = full@;
        full.push(SetBindings { set: vertex[i].set, bindings });
        proof {
            assert forall|j: int| 0 <= j < i + 1 implies #[trigger] full@[j].set == vertex@[j].set
                && full@[j].bindings@ == vertex@[j].bindings@.map_values(
                    |b: DescriptorBinding| with_stage(b, crate::vk::SHADER_STAGE_VERTEX)) by {
                if j < i {
                    assert(full@[j] == before[j]);
                }
            }
        }
        i = i + 1;
    }
    proof {
        assert forall|j: int, k: int| 0 <= j < k < full.len() implies full@[j].set != full@[k].set by {
            assert(full@[j].set == vertex@[j].set);
            assert(full@[k].set == vertex@[k].set);
        }
        assert forall|s: u32| #[trigger] sets_map(full@).contains_key(s) <==> vm.contains_key(s) by {
            if sets_map(full@).contains_key(s) {
                let j = choose|j: int| 0 <= j < full@.len() && #[trigger] full@[j].set == s;
                assert(vertex@[j].set == s);
            }
            if vm.contains_key(s) {
                let j = choose|j: int| 0 <= j < vertex@.len() && #[trigger] vertex@[j].set == s;
                assert(full@[j].set == s);
            }
        }
        assert forall|s: u32| #[trigger] sets_map(full@).contains_key(s) implies sets_map(full@)[s]
            == merged_set(vm, Map::empty(), s) by {
            let j = choose|j: int| 0 <= j < full@.len() && #[trigger] full@[j].set == s;
            lemma_sets_map_at(full@, j);
            assert(vertex@[j].set == s);
            lemma_sets_map_at(vertex@, j);
        }
    }
    let mut i: usize = 0;
    while i < fragment.len()
        invariant
            0 <= i <= fragment.len(),
            distinct_sets(fragment@),
            distinct_sets(full@),
            vm == sets_map(vertex@),
            fm == sets_map(fragment@),
            forall|s: u32| #[trigger] sets_map(full@).contains_key(s) <==> vm.contains_key(s)
                || sets_map(fragment@.take(i as int)).contains_key(s),
            forall|s: u32| #[trigger] sets_map(full@).contains_key(s) ==> sets_map(full@)[s]
                == merged_set(vm, sets_map(fragment@.take(i as int)), s),
        decreases fragment.len() - i,
    {
        let s = fragment[i].set;
        let ghost done = fragment@.take(i as int);
        let ghost next = fragment@.take(i + 1);
        proof {
            assert(next == done.push(fragment@[i as int]));
            assert(distinct_sets(next));
            assert(!sets_map(done).contains_key(s)) by {
                if sets_map(done).contains_key(s) {
                    let j = choose|j: int| 0 <= j < done.len() && #[trigger] done[j].set == s;
                    assert(fragment@[j].set != fragment@[i as int].set);
                }
            }
            lemma_sets_map_at(next, i as int);
            assert forall|t: u32| #[trigger] sets_map(next).contains_key(t) <==> sets_map(done).contains_key(t) || t == s by {
                if sets_map(next).contains_key(t) {
                    let j = choose|j: int| 0 <= j < next.len() && #[trigger] next[j].set == t;
                    if j < i {
                        assert(done[j].set == t);
                    }
                }
                if sets_map(done).contains_key(t) {
                    let j = choose|j: int| 0 <= j < done.len() && #[trigger] done[j].set == t;
                    assert(next[j].set == t);
                }
            }
            assert forall|t: u32| t != s && #[trigger] sets_map(done).contains_key(t) implies sets_map(next)[t]
                == sets_map(done)[t] by {
                let j = choose|j: int| 0 <= j < done.len() && #[trigger] done[j].set == t;
                lemma_sets_map_at(done, j);
                assert(next[j] == done[j]);
                lemma_sets_map_at(next, j);
            }
        }
        let ghost full_before = full@;
        match find_set(&full, s) {
            Some(k) => {
                proof {
                    lemma_sets_map_at(full@, k as int);
                }
                let mut cur = Vec::new();
                std::mem::swap(&mut cur, &mut full[k].bindings);
                merge_fragment_bindings(&mut cur, &fragment[i].bindings);
                full.set(k, SetBindings { set: s, bindings: cur });
                proof {
                    assert forall|j: int, l: int| 0 <= j < l < full.len() implies full@[j].set != full@[l].set by {
                        assert(full_before[j].set != full_before[l].set);
                    }
                    lemma_sets_map_at(full@, k as int);
                    assert forall|t: u32| #[trigger] sets_map(full@).contains_key(t) <==> sets_map(full_before).contains_key(t) by {
                        if sets_map(full@).contains_key(t) {
                            let j = choose|j: int| 0 <= j < full@.len() && #[trigger] full@[j].set == t;
                            assert(full_before[j].set == t);
                        }
                        if sets_map(full_before).contains_key(t) {
                            let j = choose|j: int| 0 <= j < full_before.len() && #[trigger] full_before[j].set == t;
                            assert(full@[j].set == t);
                        }
                    }
                    assert forall|t: u32| t != s && #[trigger] sets_map(full@).contains_key(t) implies sets_map(full@)[t]
                        == sets_map(full_before)[t] by {
                        let j = choose|j: int| 0 <= j < full@.len() && #[trigger] full@[j].set == t;
                        lemma_sets_map_at(full@, j);
                        lemma_sets_map_at(full_before, j);
                    }
                }
            },
            None => {
                let mut cur = Vec::new();
                merge_fragment_bindings(&mut cur, &fragment[i].bindings);
                full.push(SetBindings { set: s, bindings: cur });
                proof {
                    assert(!sets_map(full_before).contains_key(s)) by {
                        if sets_map(full_before).contains_key(s) {
                            let j = choose|j: int| 0 <= j < full_before.len() && #[trigger] full_before[j].set == s;
                        }
                    }
                    assert forall|j: int, l: int| 0 <= j < l < full.len() implies full@[j].set != full@[l].set by {
                        if l < full_before.len() {
                            assert(full_before[j].set != full_before[l].set);
                        }
                    }
                    lemma_sets_map_at(full@, full_before.len() as int);
                    assert(cur@ == merge_fragments(Seq::empty(), fragment@[i as int].bindings@));
                    assert forall|t: u32| #[trigger] sets_map(full@).contains_key(t) <==> sets_map(full_before).contains_key(t) || t == s by {
                        if sets_map(full@).contains_key(t) {
                            let j = choose|j: int| 0 <= j < full@.len() && #[trigger] full@[j].set == t;
                            if j < full_before.len() {
                                assert(full_before[j].set == t);
                            }
                        }
                        if sets_map(full_before).contains_key(t) {
                            let j = choose|j: int| 0 <= j < full_before.len() && #[trigger] full_before[j].set == t;
                            assert(full@[j].set == t);
                        }
                    }
                    assert forall|t: u32| t != s && #[trigger] sets_map(full_before).contains_key(t) implies sets_map(full@)[t]
                        == sets_map(full_before)[t] by {
                        let j = choose|j: int| 0 <= j < full_before.len() && #[trigger] full_before[j].set == t;
                        lemma_sets_map_at(full@, j);
                        lemma_sets_map_at(full_before, j);
                    }
                }
            },
        }
        i = i + 1;
    }
    proof {
        assert(fragment@.take(fragment.len() as int) == fragment@);
    }
    full
}


/// Rasterization settings. The line width and the depth-bias limits are
/// whole numbers here; no depth bias is applied.
#[derive(Clone, Copy, Debug, PartialEq, Eq, Structural)]
pub struct RasterizationState {
    pub depth_clamp_enable: bool,
    pub cull_mode: u32,
    pub front_face: i32,
    pub polygon_mode: i32,
    pub rasterizer_discard_enable: bool,
    pub depth_bias_enable: bool,
    pub line_width: u32,
}

#[derive(Clone, Copy, Debug, PartialEq, Eq, Structural)]
pub struct StencilOpState {
    pub fail_op: i32,
    pub pass_op: i32,
    pub depth_fail_op: i32,
    pub compare_op: i32,
    pub compare_mask: u32,
    pub write_mask: u32,
    pub reference: u32,
}

/// Depth and stencil settings; the depth bounds are whole numbers here.
#[derive(Clone, Copy, Debug, PartialEq, Eq, Structural)]
pub struct DepthStencilState {
    pub depth_test_enable: bool,
    pub depth_write_enable: bool,
    pub depth_compare_op: i32,
    pub depth_bounds_test_enable: bool,
    pub stencil_test_enable: bool,
    pub front: StencilOpState,
    pub back: StencilOpState,
    pub min_depth_bounds: u32,
    pub max_depth_bounds: u32,
}

#[derive(Clone, Copy, Debug, PartialEq, Eq, Structural)]
pub struct BlendAttachmentState {
    pub blend_enable: bool,
    pub src_color_blend_factor: i32,
    pub dst_color_blend_factor: i32,
    pub color_blend_op: i32,
    pub src_alpha_blend_factor: i32,
    pub dst_alpha_blend_factor: i32,
    pub alpha_blend_op: i32,
    pub color_write_mask: u32,
}

/// Color blend settings. All four blend constants share one whole-number
/// value.
pub struct ColorBlendState {
    pub logic_op_enable: bool,
    pub logic_op: i32,
    pub attachments: Vec<BlendAttachmentState>,
    pub blend_constant: u32,
}

/// Stencil operations that keep the stencil as it is.
pub open spec fn stencil_keep() -> StencilOpState {
    StencilOpState {
        fail_op: crate::vk::STENCIL_OP_KEEP,
        pass_op: crate::vk::STENCIL_OP_KEEP,
        depth_fail_op: crate::vk::STENCIL_OP_KEEP,
        compare_op: crate::vk::COMPARE_OP_ALWAYS,
        compare_mask: 0,
        write_mask: 0,
        reference: 0,
    }
}

/// Standard rasterization: filled, clockwise front faces, no culling.
pub open spec fn rasterization_state(rasterization: RasterizationType) -> RasterizationState {
    match rasterization {
        RasterizationType::Standard => RasterizationState {
            depth_clamp_enable: false,
            cull_mode: crate::vk::CULL_MODE_NONE,
            front_face: crate::vk::FRONT_FACE_CLOCKWISE,
            polygon_mode: crate::vk::POLYGON_MODE_FILL,
            rasterizer_discard_enable: false,
            depth_bias_enable: false,
            line_width: 1,
        },
    }
}

/// Depth testing and writing with a less-or-equal test when enabled,
/// neither when disabled; no stencil test and no depth bounds test.
pub open spec fn depth_stencil_state(depth_stencil: DepthStencilType) -> DepthStencilState {
    let enable = depth_stencil == DepthStencilType::Enable;
    DepthStencilState {
        depth_test_enable: enable,
        depth_write_enable: enable,
        depth_compare_op: crate::vk::COMPARE_OP_LESS_OR_EQUAL,
        depth_bounds_test_enable: false,
        stencil_test_enable: false,
        front: stencil_keep(),
        back: stencil_keep(),
        min_depth_bounds: 0,
        max_depth_bounds: 1,
    }
}

/// No blending writes the color as it is; transparent blending mixes by
/// source alpha. Alpha blending has no settings.
pub open spec fn blend_attachment(blend: BlendType) -> BlendAttachmentState {
    if blend == BlendType::Transparent {
        BlendAttachmentState {
            blend_enable: true,
            src_color_blend_factor: crate::vk::BLEND_FACTOR_SRC_ALPHA,
            dst_color_blend_factor: crate::vk::BLEND_FACTOR_ONE_MINUS_SRC_ALPHA,
            color_blend_op: crate::vk::BLEND_OP_ADD,
            src_alpha_blend_factor: crate::vk::BLEND_FACTOR_ONE,
            dst_alpha_blend_factor: crate::vk::BLEND_FACTOR_ONE_MINUS_SRC_ALPHA,
            alpha_blend_op: crate::vk::BLEND_OP_ADD,
            color_write_mask: crate::vk::COLOR_COMPONENT_RGBA,
        }
    } else {
        BlendAttachmentState {
            blend_enable: false,
            src_color_blend_factor: crate::vk::BLEND_FACTOR_ZERO,
            dst_color_blend_factor: crate::vk::BLEND_FACTOR_ZERO,
            color_blend_op: crate::vk::BLEND_OP_ADD,
            src_alpha_blend_factor: crate::vk::BLEND_FACTOR_ZERO,
            dst_alpha_blend_factor: crate::vk::BLEND_FACTOR_ZERO,
            alpha_blend_op: crate::vk::BLEND_OP_ADD,
            color_write_mask: crate::vk::COLOR_COMPONENT_RGBA,
        }
    }
}

fn generate_rasteration_state(rasterization_type: RasterizationType) -> (state: RasterizationState)
    ensures
        state == rasterization_state(rasterization_type),
{
    match rasterization_type {
        RasterizationType::Standard => RasterizationState {
            depth_clamp_enable: false,
            cull_mode: crate::vk::CULL_MODE_NONE,
            front_face: crate::vk::FRONT_FACE_CLOCKWISE,
            polygon_mode: crate::vk::POLYGON_MODE_FILL,
            rasterizer_discard_enable: false,
            depth_bias_enable: false,
            line_width: 1,
        },
    }
}

fn stencil_state_keep() -> (state: StencilOpState)
    ensures
        state == stencil_keep(),
{
    StencilOpState {
        fail_op: crate::vk::STENCIL_OP_KEEP,
        pass_op: crate::vk::STENCIL_OP_KEEP,
        depth_fail_op: crate::vk::STENCIL_OP_KEEP,
        compare_op: crate::vk::COMPARE_OP_ALWAYS,
        compare_mask: 0,
        write_mask: 0,
        reference: 0,
    }
}

fn generate_depth_stencil_state(depth_stencil_type: DepthStencilType) -> (state: DepthStencilState)
    ensures
        state == depth_stencil_state(depth_stencil_type),
{
    match depth_stencil_type {
        DepthStencilType::Enable => DepthStencilState {
            depth_test_enable: true,
            depth_write_enable: true,
            depth_compare_op: crate::vk::COMPARE_OP_LESS_OR_EQUAL,
            depth_bounds_test_enable: false,
            stencil_test_enable: false,
            front: stencil_state_keep(),
            back: stencil_state_keep(),
            min_depth_bounds: 0,
            max_depth_bounds: 1,
        },
        _ => DepthStencilState {
            depth_test_enable: false,
            depth_write_enable: false,
            depth_compare_op: crate::vk::COMPARE_OP_LESS_OR_EQUAL,
            depth_bounds_test_enable: false,
            stencil_test_enable: false,
            front: stencil_state_keep(),
            back: stencil_state_keep(),
            min_depth_bounds: 0,
            max_depth_bounds: 1,
        },
    }
}

fn generate_blend_attachments(blend_type: BlendType) -> (attachments: Vec<BlendAttachmentState>)
    requires
        blend_type != BlendType::Alpha,
    ensures
        attachments@ == seq![blend_attachment(blend_type)],
{
    match blend_type {
        BlendType::Disabled => vec![BlendAttachmentState {
            blend_enable: false,
            src_color_blend_factor: crate::vk::BLEND_FACTOR_ZERO,
            dst_color_blend_factor: crate::vk::BLEND_FACTOR_ZERO,
            color_blend_op: crate::vk::BLEND_OP_ADD,
            src_alpha_blend_factor: crate::vk::BLEND_FACTOR_ZERO,
            dst_alpha_blend_factor: crate::vk::BLEND_FACTOR_ZERO,
            alpha_blend_op: crate::vk::BLEND_OP_ADD,
            color_write_mask: crate::vk::COLOR_COMPONENT_RGBA,
        }],
        BlendType::Transparent => vec![BlendAttachmentState {
            blend_enable: true,
            src_color_blend_factor: crate::vk::BLEND_FACTOR_SRC_ALPHA,
            dst_color_blend_factor: crate::vk::BLEND_FACTOR_ONE_MINUS_SRC_ALPHA,
            color_blend_op: crate::vk::BLEND_OP_ADD,
            src_alpha_blend_factor: crate::vk::BLEND_FACTOR_ONE,
            dst_alpha_blend_factor: crate::vk::BLEND_FACTOR_ONE_MINUS_SRC_ALPHA,
            alpha_blend_op: crate::vk::BLEND_OP_ADD,
            color_write_mask: crate::vk::COLOR_COMPONENT_RGBA,
        }],
        BlendType::Alpha => vstd::pervasive::unreached(),
    }
}

/// Without blending: no logic operation (a no-op), constants zero. With
/// transparent blending: the defaults, constants one.
fn generate_blend_state(blend_type: BlendType, attachments: &Vec<BlendAttachmentState>) -> (state: ColorBlendState)
    requires
        blend_type != BlendType::Alpha,
    ensures
        state.attachments@ == attachments@,
        !state.logic_op_enable,
        state.logic_op == (if blend_type == BlendType::Disabled { crate::vk::LOGIC_OP_NO_OP } else { crate::vk::LOGIC_OP_CLEAR }),
        state.blend_constant == (if blend_type == BlendType::Disabled { 0u32 } else { 1u32 }),
{
    match blend_type {
        BlendType::Disabled => ColorBlendState {
            logic_op_enable: false,
            logic_op: crate::vk::LOGIC_OP_NO_OP,
            attachments: attachments.clone(),
            blend_constant: 0,
        },
        BlendType::Transparent => ColorBlendState {
            logic_op_enable: false,
            logic_op: crate::vk::LOGIC_OP_CLEAR,
            attachments: attachments.clone(),
            blend_constant: 1,
        },
        BlendType::Alpha => vstd::pervasive::unreached(),
    }
}

/// The fixed-function state of a graphics pipeline.
pub struct FixedFunctionState {
    pub rasterization: RasterizationState,
    pub depth_stencil: DepthStencilState,
    pub blend: ColorBlendState,
}

/// The fixed-function state a pipeline description selects: its
/// rasterization and depth settings, and one blend attachment of its blend
/// type. Alpha blending has no settings and is not accepted.
pub fn fixed_function_state(
    rasterization: RasterizationType,
    depth_stencil: DepthStencilType,
    blend: BlendType,
) -> (state: FixedFunctionState)
    requires
        blend != BlendType::Alpha,
    ensures
        state.rasterization == rasterization_state(rasterization),
        state.depth_stencil == depth_stencil_state(depth_stencil),
        state.blend.attachments@ == seq![blend_attachment(blend)],
        !state.blend.logic_op_enable,
        state.blend.logic_op == (if blend == BlendType::Disabled { crate::vk::LOGIC_OP_NO_OP } else { crate::vk::LOGIC_OP_CLEAR }),
        state.blend.blend_constant == (if blend == BlendType::Disabled { 0u32 } else { 1u32 }),
{
    let attachments = generate_blend_attachments(blend);
    FixedFunctionState {
        rasterization: generate_rasteration_state(rasterization),
        depth_stencil: generate_depth_stencil_state(depth_stencil),
        blend: generate_blend_state(blend, &attachments),
    }
}

/// The highest set number in use, or 0 when there are none.
pub open spec fn highest_set(sets: Seq<SetBindings>) -> u32
    decreases sets.len(),
{
    if sets.len() == 0 {
        0
    } else {
        let h = highest_set(sets.drop_last());
        if sets.last().set > h { sets.last().set } else { h }
    }
}

proof fn lemma_highest_set(sets: Seq<SetBindings>)
    ensures
        forall|i: int| 0 <= i < sets.len() ==> #[trigger] sets[i].set <= highest_set(sets),
        sets.len() > 0 ==> exists|i: int| 0 <= i < sets.len() && #[trigger] sets[i].set == highest_set(sets),
    decreases sets.len(),
{
    if sets.len() > 0 {
        let rest = sets.drop_last();
        lemma_highest_set(rest);
        assert forall|i: int| 0 <= i < sets.len() implies #[trigger] sets[i].set <= highest_set(sets) by {
            if i < sets.len() - 1 {
                assert(rest[i] == sets[i]);
            }
        }
        if sets.last().set > highest_set(rest) || rest.len() == 0 {
            assert(sets[sets.len() - 1].set == highest_set(sets));
        } else {
            let k = choose|k: int| 0 <= k < rest.len() && #[trigger] rest[k].set == highest_set(rest);
            assert(sets[k].set == highest_set(sets));
        }
    }
}

/// The descriptor set layout slots of a pipeline: one per set number up to
/// the highest in use. A slot holds the position in `full` of the bindings
/// of its set, or nothing where the pipeline leaves a hole.
pub fn descriptor_set_slots(full: &Vec<SetBindings>) -> (slots: Vec<Option<usize>>)
    requires
        distinct_sets(full@),
        forall|i: int| 0 <= i < full@.len() ==> #[trigger] full@[i].set < u32::MAX,
    ensures
        slots@.len() == highest_set(full@) + 1,
        forall|s: int| 0 <= s < slots@.len() ==> match #[trigger] slots@[s] {
            Some(k) => k < full@.len() && full@[k as int].set == s,
            None => !sets_map(full@).contains_key(s as u32),
        },
{
    let mut highest: u32 = 0;
    let mut i: usize = 0;
    while i < full.len()
        invariant
            0 <= i <= full.len(),
            highest == highest_set(full@.take(i as int)),
        decreases full.len() - i,
    {
        proof {
            assert(full@.take(i + 1).drop_last() == full@.take(i as int));
        }
        if full[i].set > highest {
            highest = full[i].set;
        }
        i = i + 1;
    }
    proof {
        assert(full@.take(full.len() as int) == full@);
        lemma_highest_set(full@);
    }
    let mut slots: Vec<Option<usize>> = Vec::new();
    let mut set: u32 = 0;
    loop
        invariant_except_break
            slots@.len() == set,
        invariant
            0 <= set <= highest,
            highest == highest_set(full@),
            highest < u32::MAX,
            distinct_sets(full@),
            slots@.len() <= set + 1,
            forall|s: int| 0 <= s < slots@.len() ==> match #[trigger] slots@[s] {
                Some(k) => k < full@.len() && full@[k as int].set == s,
                None => !sets_map(full@).contains_key(s as u32),
            },
        ensures
            slots@.len() == highest + 1,
            forall|s: int| 0 <= s < slots@.len() ==> match #[trigger] slots@[s] {
                Some(k) => k < full@.len() && full@[k as int].set == s,
                None => !sets_map(full@).contains_key(s as u32),
            },
        decreases highest - set,
    {
        let slot = find_set(full, set);
        proof {
            if slot is None {
                assert(!sets_map(full@).contains_key(set)) by {
                    if sets_map(full@).contains_key(set) {
                        let j = choose|j: int| 0 <= j < full@.len() && #[trigger] full@[j].set == set;
                    }
                }
            }
        }
        slots.push(slot);
        if set == highest {
            assert(slots@.len() == highest + 1);
            break;
        }
        set = set + 1;
    }
    slots
}

/// The descriptor sets of a compute pipeline: the shader's, every binding
/// for the compute stage.
pub fn compute_bindings(shader_sets: &Vec<SetBindings>) -> (full: Vec<SetBindings>)
    ensures
        full@.len() == shader_sets@.len(),
        forall|i: int| 0 <= i < full@.len() ==> #[trigger] full@[i].set == shader_sets@[i].set
            && full@[i].bindings@ == shader_sets@[i].bindings@.map_values(
                |b: DescriptorBinding| with_stage(b, crate::vk::SHADER_STAGE_COMPUTE)),
{
    let mut full: Vec<SetBindings> = Vec::new();
    let mut i: usize = 0;
    while i < shader_sets.len()
        invariant
            0 <= i <= shader_sets.len(),
            full@.len() == i,
            forall|j: int| 0 <= j < i ==> #[trigger] full@[j].set == shader_sets@[j].set
                && full@[j].bindings@ == shader_sets@[j].bindings@.map_values(
                    |b: DescriptorBinding| with_stage(b, crate::vk::SHADER_STAGE_COMPUTE)),
        decreases shader_sets.len() - i,
    {
        let bindings = bindings_for_stage(&shader_sets[i].bindings, crate::vk::SHADER_STAGE_COMPUTE);
        full.push(SetBindings { set: shader_sets[i].set, bindings });
        i = i + 1;
    }
    full
}


/// The stage flags `b` has include all of `mask`.
pub open spec fn has_stages(b: DescriptorBinding, mask: u32) -> bool {
    b.stage_flags & mask == mask
}

proof fn lemma_find_slot(cur: Seq<DescriptorBinding>, b: DescriptorBinding)
    ensures
        find_slot(cur, b) == -1 || (0 <= find_slot(cur, b) < cur.len() && same_slot(cur[find_slot(cur, b)], b)),
    decreases cur.len(),
{
    if cur.len() > 0 {
        lemma_find_slot(cur.drop_last(), b);
        let r = find_slot(cur.drop_last(), b);
        if r >= 0 {
            assert(cur.drop_last()[r] == cur[r]);
        }
    }
}

/// Merging a fragment binding keeps every binding in place, with its slot
/// and its stages.
proof fn lemma_merge_fragment_keeps(cur: Seq<DescriptorBinding>, b: DescriptorBinding, k: int, mask: u32)
    requires
        0 <= k < cur.len(),
        has_stages(cur[k], mask),
    ensures
        merge_fragment(cur, b).len() >= cur.len(),
        same_slot(merge_fragment(cur, b)[k], cur[k]),
        has_stages(merge_fragment(cur, b)[k], mask),
{
    lemma_find_slot(cur, b);
    let r = find_slot(cur, b);
    if r >= 0 && r == k {
        let x = cur[k].stage_flags;
        assert(x & mask == mask ==> (x | crate::vk::SHADER_STAGE_FRAGMENT) & mask == mask) by (bit_vector);
    }
}

proof fn lemma_merge_fragments_keeps(cur: Seq<DescriptorBinding>, bs: Seq<DescriptorBinding>, k: int, mask: u32)
    requires
        0 <= k < cur.len(),
        has_stages(cur[k], mask),
    ensures
        merge_fragments(cur, bs).len() >= cur.len(),
        same_slot(merge_fragments(cur, bs)[k], cur[k]),
        has_stages(merge_fragments(cur, bs)[k], mask),
    decreases bs.len(),
{
    if bs.len() > 0 {
        lemma_merge_fragments_keeps(cur, bs.drop_last(), k, mask);
        lemma_merge_fragment_keeps(merge_fragments(cur, bs.drop_last()), bs.last(), k, mask);
    }
}

/// After merging, every fragment binding has a binding for its slot that
/// the fragment stage sees.
proof fn lemma_merge_fragments_has(cur: Seq<DescriptorBinding>, bs: Seq<DescriptorBinding>, j: int)
    requires
        0 <= j < bs.len(),
    ensures
        exists|k: int| 0 <= k < merge_fragments(cur, bs).len() && same_slot(#[trigger] merge_fragments(cur, bs)[k], bs[j])
            && has_stages(merge_fragments(cur, bs)[k], crate::vk::SHADER_STAGE_FRAGMENT),
    decreases bs.len(),
{
    let rest = bs.drop_last();
    let before = merge_fragments(cur, rest);
    let after = merge_fragments(cur, bs);
    if j < bs.len() - 1 {
        lemma_merge_fragments_has(cur, rest, j);
        assert(rest[j] == bs[j]);
        let k = choose|k: int| 0 <= k < before.len() && same_slot(#[trigger] before[k], rest[j])
            && has_stages(before[k], crate::vk::SHADER_STAGE_FRAGMENT);
        lemma_merge_fragment_keeps(before, bs.last(), k, crate::vk::SHADER_STAGE_FRAGMENT);
        assert(same_slot(after[k], bs[j]));
    } else {
        let b = bs.last();
        lemma_find_slot(before, b);
        let r = find_slot(before, b);
        if r >= 0 {
            let x = before[r].stage_flags;
            assert((x | crate::vk::SHADER_STAGE_FRAGMENT) & crate::vk::SHADER_STAGE_FRAGMENT
                == crate::vk::SHADER_STAGE_FRAGMENT) by (bit_vector);
            assert(same_slot(after[r], bs[j]));
        } else {
            let k = before.len() as int;
            assert(after[k] == with_stage(b, crate::vk::SHADER_STAGE_FRAGMENT));
            assert(crate::vk::SHADER_STAGE_FRAGMENT & crate::vk::SHADER_STAGE_FRAGMENT
                == crate::vk::SHADER_STAGE_FRAGMENT) by (bit_vector);
            assert(same_slot(after[k], bs[j]));
        }
    }
}

/// The vertex shader's bindings of set `s` keep their place in the merged
/// set and stay visible to the vertex stage.
pub open spec fn vertex_bindings_kept(
    vertex: Map<u32, Seq<DescriptorBinding>>,
    fragment: Map<u32, Seq<DescriptorBinding>>,
    s: u32,
) -> bool {
    vertex.contains_key(s) ==> {
        &&& merged_set(vertex, fragment, s).len() >= vertex[s].len()
        &&& forall|k: int| 0 <= k < vertex[s].len() ==> {
            &&& same_slot(#[trigger] merged_set(vertex, fragment, s)[k], vertex[s][k])
            &&& has_stages(merged_set(vertex, fragment, s)[k], crate::vk::SHADER_STAGE_VERTEX)
        }
    }
}

/// Every fragment binding of set `s` has a binding for its slot in the
/// merged set that the fragment stage sees.
pub open spec fn fragment_bindings_seen(
    vertex: Map<u32, Seq<DescriptorBinding>>,
    fragment: Map<u32, Seq<DescriptorBinding>>,
    s: u32,
) -> bool {
    fragment.contains_key(s) ==> forall|j: int| #![trigger fragment[s][j]] 0 <= j < fragment[s].len() ==> exists|k: int|
        0 <= k < merged_set(vertex, fragment, s).len()
        && same_slot(#[trigger] merged_set(vertex, fragment, s)[k], fragment[s][j])
        && has_stages(merged_set(vertex, fragment, s)[k], crate::vk::SHADER_STAGE_FRAGMENT)
}

/// In each descriptor set of a graphics pipeline, the vertex shader's
/// bindings keep their place and stay visible to the vertex stage, and
/// every binding of the fragment shader has a binding for its slot that
/// the fragment stage sees; a slot used by both shaders is one binding
/// seen by both stages.
#[verifier::spinoff_prover]
pub proof fn law_merged_bindings_serve_both_stages(
    vertex: Map<u32, Seq<DescriptorBinding>>,
    fragment: Map<u32, Seq<DescriptorBinding>>,
    s: u32,
)
    ensures
        vertex_bindings_kept(vertex, fragment, s),
        fragment_bindings_seen(vertex, fragment, s),
{
    let base = if vertex.contains_key(s) {
        vertex[s].map_values(|b: DescriptorBinding| with_stage(b, crate::vk::SHADER_STAGE_VERTEX))
    } else {
        Seq::empty()
    };
    let m = if fragment.contains_key(s) { merge_fragments(base, fragment[s]) } else { base };
    assert(merged_set(vertex, fragment, s) == m);
    if vertex.contains_key(s) {
        assert forall|k: int| 0 <= k < vertex[s].len() implies {
            &&& k < m.len()
            &&& same_slot(#[trigger] m[k], vertex[s][k])
            &&& has_stages(m[k], crate::vk::SHADER_STAGE_VERTEX)
        } by {
            assert(base[k] == with_stage(vertex[s][k], crate::vk::SHADER_STAGE_VERTEX));
            assert(crate::vk::SHADER_STAGE_VERTEX & crate::vk::SHADER_STAGE_VERTEX
                == crate::vk::SHADER_STAGE_VERTEX) by (bit_vector);
            if fragment.contains_key(s) {
                lemma_merge_fragments_keeps(base, fragment[s], k, crate::vk::SHADER_STAGE_VERTEX);
            }
        }
        assert(m.len() >= vertex[s].len()) by {
            if fragment.contains_key(s) && vertex[s].len() > 0 {
                assert(base[0] == with_stage(vertex[s][0], crate::vk::SHADER_STAGE_VERTEX));
                assert(crate::vk::SHADER_STAGE_VERTEX & crate::vk::SHADER_STAGE_VERTEX
                    == crate::vk::SHADER_STAGE_VERTEX) by (bit_vector);
                lemma_merge_fragments_keeps(base, fragment[s], 0, crate::vk::SHADER_STAGE_VERTEX);
            }
        }
        assert(vertex_bindings_kept(vertex, fragment, s));
    }
    if fragment.contains_key(s) {
        assert forall|j: int| #![trigger fragment[s][j]] 0 <= j < fragment[s].len() implies exists|k: int|
            0 <= k < m.len() && same_slot(#[trigger] m[k], fragment[s][j])
            && has_stages(m[k], crate::vk::SHADER_STAGE_FRAGMENT) by {
            lemma_merge_fragments_has(base, fragment[s], j);
        }
    }
}

/// The fixed-function settings a description selects:
/// - with depth testing enabled, fragments are tested and written with a
///   less-or-equal comparison, so nearer fragments hide farther ones; with
///   it disabled, depth is neither tested nor written; the stencil and
///   depth-bounds tests are always off;
/// - standard rasterization fills polygons, culls nothing, takes clockwise
///   faces as front faces and discards nothing;
/// - every blend attachment writes all four components; transparent
///   blending mixes the color by source alpha (source times alpha plus
///   destination times one minus alpha), no blending writes it unmixed.
pub proof fn law_fixed_function_settings(
    rasterization: RasterizationType,
    depth_stencil: DepthStencilType,
    blend: BlendType,
)
    ensures
        ({
            let d = depth_stencil_state(depth_stencil);
            &&& d.depth_test_enable == (depth_stencil == DepthStencilType::Enable)
            &&& d.depth_write_enable == (depth_stencil == DepthStencilType::Enable)
            &&& depth_stencil == DepthStencilType::Enable ==> d.depth_compare_op == crate::vk::COMPARE_OP_LESS_OR_EQUAL
                && d.depth_compare_op != crate::vk::COMPARE_OP_ALWAYS
            &&& !d.stencil_test_enable
            &&& !d.depth_bounds_test_enable
        }),
        ({
            let r = rasterization_state(rasterization);
            &&& r.polygon_mode == crate::vk::POLYGON_MODE_FILL
            &&& r.cull_mode == crate::vk::CULL_MODE_NONE
            &&& r.front_face == crate::vk::FRONT_FACE_CLOCKWISE
            &&& !r.rasterizer_discard_enable
            &&& r.line_width == 1
        }),
        ({
            let a = blend_attachment(blend);
            &&& a.color_write_mask == crate::vk::COLOR_COMPONENT_RGBA
            &&& blend == BlendType::Transparent ==> {
                &&& a.blend_enable
                &&& a.src_color_blend_factor == crate::vk::BLEND_FACTOR_SRC_ALPHA
                &&& a.dst_color_blend_factor == crate::vk::BLEND_FACTOR_ONE_MINUS_SRC_ALPHA
                &&& a.color_blend_op == crate::vk::BLEND_OP_ADD
            }
            &&& blend == BlendType::Disabled ==> !a.blend_enable
        }),
{
}

} // verus!
