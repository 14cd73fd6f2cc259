//! Shaders: the descriptor bindings that reflection finds in SPIR-V code,
//! grouped by descriptor set, and a cache of loaded shaders by file name.

use vstd::prelude::*;
use crate::named_cache::NamedCache;
use crate::pipeline::{DescriptorBinding, SetBindings, distinct_sets, find_set, lemma_sets_map_at, sets_map};

verus! {

/// How many descriptors a reflected binding holds.
#[derive(Clone, Copy, Debug, PartialEq, Eq, Structural)]
pub enum ReflectedCount {
    One,
    StaticSized(usize),
    Unbounded,
}

/// One descriptor binding that reflection found: its set, binding number,
/// descriptor type and count.
#[derive(Clone, Copy, Debug, PartialEq, Eq, Structural)]
pub struct ReflectedBinding {
    pub set: u32,
    pub binding: u32,
    pub descriptor_type: u32,
    pub count: ReflectedCount,
}

/// What reflecting the SPIR-V `code` gives: first, whether reflection
/// returns at all (it panics on some code that parses but is malformed);
/// then the descriptor bindings it finds, set by set and binding by binding
/// in increasing order, or nothing where the code does not parse or reflect.
pub uninterp spec fn spirv_reflection(code: Seq<u8>) -> (bool, Option<Seq<ReflectedBinding>>);

/// Code on which reflection returns rather than panics.
pub open spec fn reflects_without_panic(code: Seq<u8>) -> bool {
    spirv_reflection(code).0
}

/// The descriptor bindings that reflection finds in `code`, if any.
pub open spec fn spirv_descriptor_bindings(code: Seq<u8>) -> Option<Seq<ReflectedBinding>> {
    spirv_reflection(code).1
}

/// Reflects SPIR-V code: `rspirv_reflect::Reflection::new_from_spirv`, then
/// `Reflection::get_descriptor_sets`, whose nested maps are walked in key
/// order. The result is taken as a function of the code alone; which
/// bindings come out, and on which malformed code `get_descriptor_sets`
/// panics (its `assert!`s, `unwrap`s and `todo!`s on unexpected type
/// instructions), is not stated here: the code must be such that it does not.
#[verifier::external_body]
fn reflect_descriptor_bindings(code: &[u8]) -> (bindings: Option<Vec<ReflectedBinding>>)
    requires
        spirv_reflection(code@).0,
    ensures
        match bindings {
            Some(v) => spirv_reflection(code@).1 == Some(v@),
            None => spirv_reflection(code@).1 is None,
        },
{
    let sets = rspirv_reflect::Reflection::new_from_spirv(code).ok()?.get_descriptor_sets().ok()?;
    let mut out = Vec::new();
    for (set, bindings) in sets {
        for (binding, info) in bindings {
            let count = match info.binding_count {
                rspirv_reflect::BindingCount::One => ReflectedCount::One,
                rspirv_reflect::BindingCount::StaticSized(n) => ReflectedCount::StaticSized(n),
                rspirv_reflect::BindingCount::Unbounded => ReflectedCount::Unbounded,
            };
            out.push(ReflectedBinding { set, binding, descriptor_type: info.ty.0, count });
        }
    }
    Some(out)
}

/// A reflected binding as a layout binding, for no stage yet.
pub open spec fn layout_binding(r: ReflectedBinding) -> DescriptorBinding {
    DescriptorBinding {
        binding: r.binding,
        descriptor_type: r.descriptor_type as i32,
        descriptor_count: match r.count {
            ReflectedCount::StaticSized(n) => n as u32,
            _ => 1u32,
        },
        stage_flags: 0,
    }
}

/// No binding of unbounded size.
pub open spec fn all_bounded(rs: Seq<ReflectedBinding>) -> bool {
    forall|i: int| 0 <= i < rs.len() ==> !(#[trigger] rs[i].count is Unbounded)
}

/// The layout bindings of each set, in the order reflection gave them.
pub open spec fn group_bindings(rs: Seq<ReflectedBinding>) -> Map<u32, Seq<DescriptorBinding>>
    decreases rs.len(),
{
    if rs.len() == 0 {
        Map::empty()
    } else {
        let m = group_bindings(rs.drop_last());
        let r = rs.last();
        let prior = if m.contains_key(r.set) { m[r.set] } else { Seq::empty() };
        m.insert(r.set, prior.push(layout_binding(r)))
    }
}

/// Groups reflected bindings by set: each set once, with the layout
/// bindings of that set in order. Unbounded bindings are not supported.
pub fn shader_set_bindings(reflected: &Vec<ReflectedBinding>) -> (sets: Vec<SetBindings>)
    requires
        all_bounded(reflected@),
    ensures
        distinct_sets(sets@),
        sets_map(sets@) == group_bindings(reflected@),
{
    let mut sets: Vec<SetBindings> = Vec::new();
    let mut i: usize = 0;
    while i < reflected.len()
        invariant
            0 <= i <= reflected.len(),
            all_bounded(reflected@),
            distinct_sets(sets@),
            sets_map(sets@) == group_bindings(reflected@.take(i as int)),
        decreases reflected.len() - i,
    {
        let r = reflected[i];
        proof {
            assert(reflected@.take(i + 1).drop_last() == reflected@.take(i as int));
            assert(reflected@.take(i + 1).last() == r);
            assert(!(reflected@[i as int].count is Unbounded));
        }
        let count: u32 = match r.count {
            ReflectedCount::One => 1,
            ReflectedCount::StaticSized(size) => size as u32,
            ReflectedCount::Unbounded => vstd::pervasive::unreached(),
        };
        let b = DescriptorBinding { binding: r.binding, descriptor_type: r.descriptor_type as i32, descriptor_count: count, stage_flags: 0 };
        assert(b == layout_binding(r));
        let ghost before = sets@;
        let ghost m = group_bindings(reflected@.take(i as int));
        match find_set(&sets, r.set) {
            Some(k) => {
                proof {
                    lemma_sets_map_at(before, k as int);
                }
                let mut cur = Vec::new();
                std::mem::swap(&mut cur, &mut sets[k].bindings);
                cur.push(b);
                sets.set(k, SetBindings { set: r.set, bindings: cur });
                proof {
                    assert forall|j: int, l: int| 0 <= j < l < sets.len() implies sets@[j].set != sets@[l].set by {
                        assert(before[j].set != before[l].set);
                    }
                    lemma_sets_map_at(sets@, k as int);
                    assert forall|t: u32| #[trigger] sets_map(sets@).contains_key(t) <==> sets_map(before).contains_key(t) by {
                        if sets_map(sets@).contains_key(t) {
                            let j = choose|j: int| 0 <= j < sets@.len() && #[trigger] sets@[j].set == t;
                            assert(before[j].set == t);
                        }
                        if sets_map(before).contains_key(t) {
                            let j = choose|j: int| 0 <= j < before.len() && #[trigger] before[j].set == t;
                            assert(sets@[j].set == t);
                        }
                    }
                    assert forall|t: u32| t != r.set && #[trigger] sets_map(sets@).contains_key(t) implies sets_map(sets@)[t]
                        == sets_map(before)[t] by {
                        let j = choose|j: int| 0 <= j < sets@.len() && #[trigger] sets@[j].set == t;
                        lemma_sets_map_at(sets@, j);
                        lemma_sets_map_at(before, j);
                    }
                    assert(sets_map(sets@) =~= m.insert(r.set, m[r.set].push(b)));
                }
            },
            None => {
                let mut cur = Vec::new();
                cur.push(b);
                sets.push(SetBindings { set: r.set, bindings: cur });
                proof {
                    assert(!sets_map(before).contains_key(r.set)) by {
                        if sets_map(before).contains_key(r.set) {
                            let j = choose|j: int| 0 <= j < before.len() && #[trigger] before[j].set == r.set;
                        }
                    }
                    assert forall|j: int, l: int| 0 <= j < l < sets.len() implies sets@[j].set != sets@[l].set by {
                        if l < before.len() {
                            assert(before[j].set != before[l].set);
                        }
                    }
                    lemma_sets_map_at(sets@, before.len() as int);
                    assert forall|t: u32| #[trigger] sets_map(sets@).contains_key(t) <==> sets_map(before).contains_key(t) || t == r.set by {
                        if sets_map(sets@).contains_key(t) {
                            let j = choose|j: int| 0 <= j < sets@.len() && #[trigger] sets@[j].set == t;
                            if j < before.len() {
                                assert(before[j].set == t);
                            }
                        }
                        if sets_map(before).contains_key(t) {
                            let j = choose|j: int| 0 <= j < before.len() && #[trigger] before[j].set == t;
                            assert(sets@[j].set == t);
                        }
                    }
                    assert forall|t: u32| t != r.set && #[trigger] sets_map(before).contains_key(t) implies sets_map(sets@)[t]
                        == sets_map(before)[t] by {
                        let j = choose|j: int| 0 <= j < before.len() && #[trigger] before[j].set == t;
                        lemma_sets_map_at(sets@, j);
                        lemma_sets_map_at(before, j);
                    }
                    assert(sets_map(sets@) =~= m.insert(r.set, Seq::<DescriptorBinding>::empty().push(b)));
                }
            },
        }
        i = i + 1;
    }
    proof {
        assert(reflected@.take(reflected.len() as int) == reflected@);
    }
    sets
}

/// The descriptor sets of the SPIR-V `code`, or nothing where reflection
/// fails or finds a binding of unbounded size. The code must be such that
/// reflection does not panic on it.
pub fn create_shader_bindings(code: &[u8]) -> (sets: Option<Vec<SetBindings>>)
    requires
        reflects_without_panic(code@),
    ensures
        match sets {
            Some(v) => spirv_descriptor_bindings(code@) is Some
                && all_bounded(spirv_descriptor_bindings(code@)->Some_0)
                && distinct_sets(v@)
                && sets_map(v@) == group_bindings(spirv_descriptor_bindings(code@)->Some_0),
            None => spirv_descriptor_bindings(code@) is None
                || !all_bounded(spirv_descriptor_bindings(code@)->Some_0),
        },
{
    let reflected = match reflect_descriptor_bindings(code) {
        Some(r) => r,
        None => return None,
    };
    assert(spirv_descriptor_bindings(code@)->Some_0 == reflected@);
    let mut i: usize = 0;
    while i < reflected.len()
        invariant
            0 <= i <= reflected.len(),
            spirv_descriptor_bindings(code@) == Some(reflected@),
            forall|j: int| 0 <= j < i ==> !(#[trigger] reflected@[j].count is Unbounded),
        decreases reflected.len() - i,
    {
        if let ReflectedCount::Unbounded = reflected[i].count {
            assert(!all_bounded(reflected@)) by {
                assert(reflected@[i as int].count is Unbounded);
            }
            return None;
        }
        i = i + 1;
    }
    Some(shader_set_bindings(&reflected))
}

/// A shader module, by handle, with the descriptor sets it uses.
pub struct Shader {
    pub shader: u64,
    pub descriptor_bindings: Vec<SetBindings>,
}

impl Shader {
    pub fn new(shader: u64, descriptor_bindings: Vec<SetBindings>) -> (s: Shader)
        ensures
            s.shader == shader,
            s.descriptor_bindings@ == descriptor_bindings@,
    {
        Shader { shader, descriptor_bindings }
    }
}

/// The shaders loaded so far, by file name. `S` is the shared shader.
pub struct ShaderManager<S> {
    pub shader_cache: NamedCache<S>,
}

impl<S> ShaderManager<S> {
    pub fn new() -> (manager: Self)
        ensures
            manager.shader_cache.well_formed(),
            manager.shader_cache.entries@.len() == 0,
    {
        ShaderManager { shader_cache: NamedCache::new() }
    }

    /// The shader loaded from `file_name`, if it was loaded before. One not
    /// loaded yet is read and created by the caller and then cached.
    pub fn load_shader(&self, file_name: &str) -> (shader: Option<&S>)
        requires
            self.shader_cache.well_formed(),
        ensures
            match shader {
                Some(s) => self.shader_cache.has(file_name@) && *s == self.shader_cache.value_of(file_name@),
                None => !self.shader_cache.has(file_name@),
            },
    {
        let key = file_name.to_owned();
        self.shader_cache.get(&key)
    }

    /// Remembers the shader loaded from `file_name`.
    pub fn cache_shader(&mut self, file_name: &str, shader: S)
        requires
            old(self).shader_cache.well_formed(),
            !old(self).shader_cache.has(file_name@),
        ensures
            final(self).shader_cache.well_formed(),
            final(self).shader_cache.has(file_name@),
            final(self).shader_cache.value_of(file_name@) == shader,
            forall|n: Seq<char>| n != file_name@ ==> (final(self).shader_cache.has(n) == old(self).shader_cache.has(n)),
    {
        self.shader_cache.insert(file_name.to_owned(), shader);
    }
}


/// A shader over the created module `shader` with the descriptor sets
/// that reflection finds in its SPIR-V `code`; nothing where reflection
/// fails or finds a binding of unbounded size. The code must be such that
/// reflection does not panic on it.
pub fn create_shader_module_from_bytes(shader: u64, code: &[u8]) -> (created: Option<Shader>)
    requires
        reflects_without_panic(code@),
    ensures
        match created {
            Some(s) => s.shader == shader
                && spirv_descriptor_bindings(code@) is Some
                && all_bounded(spirv_descriptor_bindings(code@)->Some_0)
                && distinct_sets(s.descriptor_bindings@)
                && sets_map(s.descriptor_bindings@) == group_bindings(spirv_descriptor_bindings(code@)->Some_0),
            None => spirv_descriptor_bindings(code@) is None
                || !all_bounded(spirv_descriptor_bindings(code@)->Some_0),
        },
{
    match create_shader_bindings(code) {
        Some(bindings) => Some(Shader::new(shader, bindings)),
        None => None,
    }
}

} // verus!
