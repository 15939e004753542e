//! Material specialization: one compiled pipeline variant per shader
//! entry point.
//!
//! A `ShaderMaterial` picks which fragment program variant draws it by
//! an entry-point selector. The selector is the only axis that changes
//! program structure, so the specialization key is derived from it
//! alone — the bound texture does not enter the key — and material
//! instances with equal selectors share one compiled pipeline variant.
//! Specialization is validated against the compiled module's known
//! entry points and fails fast when the selector names none of them;
//! no pipeline object is produced in that case.

use vstd::prelude::*;

use crate::errors::RenderError;

verus! {

/// How a material's surface is composited; painting materials are
/// always opaque.
#[derive(Debug, Clone, Copy, PartialEq, Eq, Structural)]
pub enum AlphaMode {
    Opaque,
    Blend,
}

/// A material drawn by one variant of the custom shader, optionally
/// textured by an off-screen render target.
#[derive(Debug, Clone, PartialEq, Eq)]
pub struct ShaderMaterial {
    /// Selector of the fragment program variant that draws this
    /// material.
    pub entry_point: String,
    /// Image handle of the composited texture, set for painting
    /// materials.
    pub bound_texture: Option<u64>,
}

impl ShaderMaterial {
    /// Asset path of the shader whose compiled module holds every
    /// fragment variant this material can select.
    pub fn fragment_shader() -> (r: String)
        ensures
            r@ == "shaders/custom.wgsl"@,
    {
        String::from_str("shaders/custom.wgsl")
    }

    /// Painting materials never blend: the composited texture is drawn
    /// opaque.
    pub fn alpha_mode(&self) -> (r: AlphaMode)
        ensures
            r == AlphaMode::Opaque,
    {
        AlphaMode::Opaque
    }

    /// Set the pipeline's fragment entry point to the key's selector,
    /// after checking that the compiled module defines it. Fails with
    /// `PipelineSpecializationFailed` — leaving the descriptor
    /// untouched — exactly when the selector is absent from the
    /// module.
    pub fn specialize(
        module: &ShaderModule,
        descriptor: &mut RenderPipelineDescriptor,
        key: &ShaderMaterialKey,
    ) -> (r: Result<(), RenderError>)
        ensures
            module.has_entry_point(key.entry_point@) ==> {
                &&& r matches Ok(u) && u == ()
                &&& final(descriptor).entry_point@ == key.entry_point@
            },
            !module.has_entry_point(key.entry_point@) ==> {
                &&& r matches Err(e) && e == RenderError::PipelineSpecializationFailed
                &&& *final(descriptor) == *old(descriptor)
            },
    {
        if module.defines(&key.entry_point) {
            descriptor.entry_point = key.entry_point.clone();
            Ok(())
        } else {
            Err(RenderError::PipelineSpecializationFailed)
        }
    }
}

/// The specialization key derived from a material: the entry-point
/// selector and nothing else.
#[derive(Debug, Clone, PartialEq, Eq, Hash)]
pub struct ShaderMaterialKey {
    /// The fragment program selector the material carries.
    pub entry_point: String,
}

impl ShaderMaterialKey {
    /// Derive the specialization key from a material instance. The key
    /// copies the entry-point selector only; the bound texture plays
    /// no part, so materials that differ only in texture share a key.
    pub fn from(material: &ShaderMaterial) -> (key: Self)
        ensures
            key.entry_point@ == material.entry_point@,
    {
        ShaderMaterialKey { entry_point: material.entry_point.clone() }
    }
}

/// The compiled shader module, seen as the set of fragment entry
/// points it defines.
#[derive(Debug, Clone, PartialEq, Eq)]
pub struct ShaderModule {
    /// Names of the entry points the compiled module exports.
    pub entry_points: Vec<String>,
}

impl ShaderModule {
    /// Whether the compiled module defines an entry point of this
    /// name.
    pub open spec fn has_entry_point(self, name: Seq<char>) -> bool {
        exists|i: int| 0 <= i < self.entry_points@.len() && self.entry_points@[i]@ == name
    }

    /// Check whether the compiled module defines `name`.
    pub fn defines(&self, name: &String) -> (b: bool)
        ensures
            b == self.has_entry_point(name@),
    {
        let mut i: usize = 0;
        while i < self.entry_points.len()
            invariant
                0 <= i <= self.entry_points@.len(),
                forall|j: int| 0 <= j < i ==> self.entry_points@[j]@ != name@,
            decreases self.entry_points@.len() - i,
        {
            if self.entry_points[i] == *name {
                return true;
            }
            i += 1;
        }
        false
    }
}

/// A pipeline descriptor under construction; specialization fixes its
/// fragment entry point before the pipeline is finalized.
#[derive(Debug, Clone, PartialEq, Eq)]
pub struct RenderPipelineDescriptor {
    /// The fragment entry point the finalized pipeline will run.
    pub entry_point: String,
}

/// One compiled pipeline variant: the selector it was specialized for
/// and the identity of the compiled pipeline object.
#[derive(Debug, Clone, PartialEq, Eq)]
pub struct PipelineEntry {
    /// Entry-point selector this variant was built for.
    pub entry_point: String,
    /// Identity of the compiled pipeline object.
    pub pipeline: u64,
}

/// Cache mapping specialization keys to compiled pipeline variants:
/// the deduplication point. Each distinct selector owns exactly one
/// variant identity.
#[derive(Debug)]
pub struct PipelineCache {
    /// Compiled variants, in order of creation.
    pub entries: Vec<PipelineEntry>,
}

impl PipelineCache {
    /// Reachable cache states: the n-th variant's identity is n, and
    /// no two variants share a selector.
    pub open spec fn wf(self) -> bool {
        &&& forall|i: int| 0 <= i < self.entries@.len() ==> self.entries@[i].pipeline == i
        &&& forall|i: int, j: int|
            0 <= i < j < self.entries@.len() ==> self.entries@[i].entry_point@
                != self.entries@[j].entry_point@
    }

    /// Whether some cached variant was built for this selector.
    pub open spec fn has_variant(self, name: Seq<char>) -> bool {
        exists|i: int| 0 <= i < self.entries@.len() && self.entries@[i].entry_point@ == name
    }

    /// Whether the variant cached for this selector has identity `id`.
    pub open spec fn variant_id_is(self, name: Seq<char>, id: u64) -> bool {
        exists|i: int|
            0 <= i < self.entries@.len() && self.entries@[i].entry_point@ == name
                && self.entries@[i].pipeline == id
    }

    /// An empty cache: no variant compiled yet.
    pub fn new() -> (c: Self)
        ensures
            c.wf(),
            c.entries@.len() == 0,
    {
        PipelineCache { entries: Vec::new() }
    }

    /// Find the cached variant for a selector, if any.
    fn find(&self, name: &String) -> (r: Option<u64>)
        requires
            self.wf(),
        ensures
            match r {
                Some(id) => self.variant_id_is(name@, id),
                None => !self.has_variant(name@),
            },
    {
        let mut i: usize = 0;
        while i < self.entries.len()
            invariant
                self.wf(),
                0 <= i <= self.entries@.len(),
                forall|j: int| 0 <= j < i ==> self.entries@[j].entry_point@ != name@,
            decreases self.entries@.len() - i,
        {
            if self.entries[i].entry_point == *name {
                return Some(self.entries[i].pipeline);
            }
            i += 1;
        }
        None
    }

    /// Yield the pipeline-variant identity for a material's key,
    /// compiling the variant on first use. Materials with equal
    /// selectors always receive the same identity; a selector the
    /// compiled module does not define fails with
    /// `PipelineSpecializationFailed` and produces no variant.
    pub fn get_or_create(&mut self, module: &ShaderModule, key: &ShaderMaterialKey) -> (r: Result<
        u64,
        RenderError,
    >)
        requires
            old(self).wf(),
        ensures
            final(self).wf(),
            old(self).has_variant(key.entry_point@) ==> {
                &&& r matches Ok(id) && old(self).variant_id_is(key.entry_point@, id)
                &&& final(self).entries@ == old(self).entries@
            },
            !old(self).has_variant(key.entry_point@) && module.has_entry_point(key.entry_point@)
                ==> (r matches Ok(id) && {
                &&& id == old(self).entries@.len()
                &&& final(self).variant_id_is(key.entry_point@, id)
                &&& final(self).entries@.len() == old(self).entries@.len() + 1
                &&& forall|i: int|
                    0 <= i < old(self).entries@.len() ==> final(self).entries@[i] == old(
                        self,
                    ).entries@[i]
            }),
            !old(self).has_variant(key.entry_point@) && !module.has_entry_point(key.entry_point@)
                ==> {
                &&& r matches Err(e) && e == RenderError::PipelineSpecializationFailed
                &&& final(self).entries@ == old(self).entries@
            },
    {
        match self.find(&key.entry_point) {
            Some(id) => Ok(id),
            None => {
                if module.defines(&key.entry_point) {
                    let id: u64 = self.entries.len() as u64;
                    self.entries.push(
                        PipelineEntry { entry_point: key.entry_point.clone(), pipeline: id },
                    );
                    proof {
                        let n = old(self).entries@.len() as int;
                        assert(self.entries@[n].entry_point@ == key.entry_point@);
                        assert(self.entries@[n].pipeline == id);
                    }
                    Ok(id)
                } else {
                    Err(RenderError::PipelineSpecializationFailed)
                }
            },
        }
    }
}

/// Deduplication law: for two material instances whose keys were
/// derived by `ShaderMaterialKey::from` and resolved against one
/// cache, the instances carry equal entry-point selectors exactly when
/// they received the same pipeline-variant identity.
pub proof fn lemma_specializer_dedup(
    cache: PipelineCache,
    m1: ShaderMaterial,
    m2: ShaderMaterial,
    id1: u64,
    id2: u64,
)
    requires
        cache.wf(),
        cache.variant_id_is(m1.entry_point@, id1),
        cache.variant_id_is(m2.entry_point@, id2),
    ensures
        m1.entry_point@ == m2.entry_point@ <==> id1 == id2,
{
    let i1 = choose|i: int|
        0 <= i < cache.entries@.len() && cache.entries@[i].entry_point@ == m1.entry_point@
            && cache.entries@[i].pipeline == id1;
    let i2 = choose|i: int|
        0 <= i < cache.entries@.len() && cache.entries@[i].entry_point@ == m2.entry_point@
            && cache.entries@[i].pipeline == id2;
    if m1.entry_point@ == m2.entry_point@ {
        if i1 != i2 {
            assert(cache.entries@[i1].entry_point@ != cache.entries@[i2].entry_point@);
        }
    }
    if id1 == id2 {
        assert(cache.entries@[i1].pipeline == i1);
        assert(cache.entries@[i2].pipeline == i2);
    }
}

} // verus!
