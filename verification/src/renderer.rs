use vstd::prelude::*;

use crate::gltf_loader::DEFAULT_TEXTURE_MAP;

verus! {

pub const MAX_NUM_GPU_MATERIALS: usize = 1024;

pub const MAX_NUM_GPU_MESHES: usize = 1024;

pub const MAX_NUM_GPU_LIGHTS: usize = 1024;

/// All shaders share these descriptor set indexes; every custom set of a
/// shader starts from index 3.
pub const DESCRIPTOR_SET_INDEX_BINDLESS: u32 = 0;

pub const DESCRIPTOR_SET_INDEX_VIEW: u32 = 1;

pub const DESCRIPTOR_SET_INDEX_INPUT_TEXTURES: u32 = 2;

/// Bindings of the bindless descriptor set.
pub const BINDLESS_BINDING_TEXTURES: u32 = 0;

pub const BINDLESS_BINDING_VERTEX_BUFFERS: u32 = 1;

pub const BINDLESS_BINDING_INDEX_BUFFERS: u32 = 2;

pub const BINDLESS_BINDING_MATERIALS: u32 = 3;

pub const BINDLESS_BINDING_MESHES: u32 = 4;

pub const BINDLESS_BINDING_LIGHTS: u32 = 5;

/// A mesh as the shaders see it: the bindless slots of its buffers and the
/// index of its material.
#[derive(Clone, Copy, Debug, PartialEq, Eq, Structural)]
pub struct GpuMesh {
    pub vertex_buffer: u32,
    pub index_buffer: u32,
    pub material: u32,
}

/// The textures of a material, as indexes into its model's texture list;
/// `DEFAULT_TEXTURE_MAP` where the material has none.
#[derive(Clone, Copy, Debug, PartialEq, Eq, Structural)]
pub struct MaterialMaps {
    pub diffuse_map: u32,
    pub normal_map: u32,
    pub metallic_roughness_map: u32,
    pub occlusion_map: u32,
}

/// Where each piece of a newly added mesh went: the bindless slots of its
/// textures, vertex buffer and index buffer, and its material and mesh
/// indexes. `texture_writes` lists, in order, each model texture that was
/// written to a new slot, with that slot.
pub struct MeshPlacement {
    pub maps: MaterialMaps,
    pub texture_writes: Vec<(u32, u32)>,
    pub vertex_buffer: u32,
    pub index_buffer: u32,
    pub material: u32,
    pub mesh: u32,
}

/// The bookkeeping of the bindless descriptor set and of the material,
/// mesh and light lists that the shaders index.
pub struct Renderer {
    pub gpu_meshes: Vec<GpuMesh>,
    pub num_gpu_materials: u32,
    pub num_gpu_lights: u32,
    pub default_diffuse_map_index: u32,
    pub default_normal_map_index: u32,
    pub default_occlusion_map_index: u32,
    pub default_metallic_roughness_map_index: u32,
    pub next_bindless_image_index: u32,
    pub next_bindless_vertex_buffer_index: u32,
    pub next_bindless_index_buffer_index: u32,
    pub need_environment_map_update: bool,
}

/// One new texture slot for a map that is not the default one, none for
/// the default.
pub open spec fn slot_used(map: u32) -> int {
    if map != DEFAULT_TEXTURE_MAP {
        1
    } else {
        0
    }
}

/// The new texture slots a mesh with these maps takes.
pub open spec fn maps_slots_used(m: MaterialMaps) -> int {
    slot_used(m.diffuse_map) + slot_used(m.normal_map) + slot_used(m.metallic_roughness_map) + slot_used(
        m.occlusion_map,
    )
}

/// The new texture slots the meshes with these maps take, together.
pub open spec fn slots_used(ms: Seq<MaterialMaps>) -> int
    decreases ms.len(),
{
    if ms.len() == 0 {
        0
    } else {
        slots_used(ms.drop_last()) + maps_slots_used(ms.last())
    }
}

/// The write of model texture `map` to slot `slot`, unless `map` is the
/// default.
pub open spec fn new_slot_write(map: u32, slot: int) -> Seq<(u32, u32)> {
    if map != DEFAULT_TEXTURE_MAP {
        seq![(map, slot as u32)]
    } else {
        Seq::empty()
    }
}

/// The model textures a mesh writes to new slots, from slot `s` on: its
/// maps that are not the default, diffuse, normal, metallic-roughness and
/// occlusion in this order, each to the next slot.
pub open spec fn mesh_texture_writes(m: MaterialMaps, s: int) -> Seq<(u32, u32)> {
    let d = slot_used(m.diffuse_map);
    let n = slot_used(m.normal_map);
    let mr = slot_used(m.metallic_roughness_map);
    new_slot_write(m.diffuse_map, s) + new_slot_write(m.normal_map, s + d) + new_slot_write(
        m.metallic_roughness_map,
        s + d + n,
    ) + new_slot_write(m.occlusion_map, s + d + n + mr)
}

/// `r` is where the `k`th mesh of a model, with maps `m`, goes when `o` is
/// the renderer before the model and `s` the first texture slot left for
/// the mesh: the default maps keep their slots, the others take slots from
/// `s` on, and the buffers, the material and the mesh come `k` places after
/// those of `o`.
pub open spec fn placement_matches(r: MeshPlacement, m: MaterialMaps, o: Renderer, s: int, k: int) -> bool {
    let d = slot_used(m.diffuse_map);
    let n = slot_used(m.normal_map);
    let mr = slot_used(m.metallic_roughness_map);
    &&& r.maps.diffuse_map == if d == 1 {
        s
    } else {
        o.default_diffuse_map_index as int
    }
    &&& r.maps.normal_map == if n == 1 {
        s + d
    } else {
        o.default_normal_map_index as int
    }
    &&& r.maps.metallic_roughness_map == if mr == 1 {
        s + d + n
    } else {
        o.default_metallic_roughness_map_index as int
    }
    &&& r.maps.occlusion_map == if slot_used(m.occlusion_map) == 1 {
        s + d + n + mr
    } else {
        o.default_occlusion_map_index as int
    }
    &&& r.texture_writes@ == mesh_texture_writes(m, s)
    &&& r.vertex_buffer == o.next_bindless_vertex_buffer_index + k
    &&& r.index_buffer == o.next_bindless_index_buffer_index + k
    &&& r.material == o.num_gpu_materials + k
    &&& r.mesh == o.gpu_meshes@.len() + k
}

/// The lights, the default maps' slots and the environment map flag are
/// the same in `a` and `b`.
pub open spec fn same_lights_and_defaults(a: Renderer, b: Renderer) -> bool {
    &&& b.num_gpu_lights == a.num_gpu_lights
    &&& b.default_diffuse_map_index == a.default_diffuse_map_index
    &&& b.default_normal_map_index == a.default_normal_map_index
    &&& b.default_occlusion_map_index == a.default_occlusion_map_index
    &&& b.default_metallic_roughness_map_index == a.default_metallic_roughness_map_index
    &&& b.need_environment_map_update == a.need_environment_map_update
}

/// The meshes of a model, as the shaders see them, when its first mesh goes
/// after those of `o`.
pub open spec fn model_gpu_meshes(o: Renderer, count: int) -> Seq<GpuMesh> {
    Seq::new(
        count as nat,
        |i: int|
            GpuMesh {
                vertex_buffer: (o.next_bindless_vertex_buffer_index + i) as u32,
                index_buffer: (o.next_bindless_index_buffer_index + i) as u32,
                material: (o.num_gpu_materials + i) as u32,
            },
    )
}

/// Taking one more mesh's maps adds that mesh's slots, and the slots of a
/// prefix are at most those of the whole list.
pub proof fn lemma_slots_used_prefix(ms: Seq<MaterialMaps>, i: int)
    requires
        0 <= i < ms.len(),
    ensures
        slots_used(ms.take(i + 1)) == slots_used(ms.take(i)) + maps_slots_used(ms[i]),
        0 <= slots_used(ms.take(i + 1)) <= slots_used(ms),
    decreases ms.len() - i,
{
    assert(ms.take(i + 1).drop_last() =~= ms.take(i));
    lemma_slots_used_nonneg(ms.take(i));
    if i + 1 < ms.len() {
        lemma_slots_used_prefix(ms, i + 1);
    } else {
        assert(ms.take(i + 1) =~= ms);
    }
}

pub proof fn lemma_slots_used_nonneg(ms: Seq<MaterialMaps>)
    ensures
        slots_used(ms) >= 0,
    decreases ms.len(),
{
    if ms.len() > 0 {
        lemma_slots_used_nonneg(ms.drop_last());
    }
}

impl Renderer {
    pub fn new() -> (r: Renderer)
        ensures
            r.gpu_meshes@.len() == 0,
            r.num_gpu_materials == 0,
            r.num_gpu_lights == 0,
            r.default_diffuse_map_index == 0,
            r.default_normal_map_index == 0,
            r.default_occlusion_map_index == 0,
            r.default_metallic_roughness_map_index == 0,
            r.next_bindless_image_index == 0,
            r.next_bindless_vertex_buffer_index == 0,
            r.next_bindless_index_buffer_index == 0,
            r.need_environment_map_update,
    {
        Renderer {
            gpu_meshes: Vec::new(),
            num_gpu_materials: 0,
            num_gpu_lights: 0,
            default_diffuse_map_index: 0,
            default_normal_map_index: 0,
            default_occlusion_map_index: 0,
            default_metallic_roughness_map_index: 0,
            next_bindless_image_index: 0,
            next_bindless_vertex_buffer_index: 0,
            next_bindless_index_buffer_index: 0,
            need_environment_map_update: true,
        }
    }

    /// The next free texture slot of the bindless set; the slot is taken.
    pub fn add_bindless_texture(&mut self) -> (r: u32)
        requires
            old(self).next_bindless_image_index < u32::MAX,
        ensures
            r == old(self).next_bindless_image_index,
            *final(self) == (Renderer { next_bindless_image_index: (r + 1) as u32, ..*old(self) }),
    {
        let new_image_index = self.next_bindless_image_index;
        self.next_bindless_image_index = self.next_bindless_image_index + 1;
        new_image_index
    }

    /// The next free vertex buffer slot of the bindless set; the slot is taken.
    pub fn add_bindless_vertex_buffer(&mut self) -> (r: u32)
        requires
            old(self).next_bindless_vertex_buffer_index < u32::MAX,
        ensures
            r == old(self).next_bindless_vertex_buffer_index,
            *final(self) == (Renderer { next_bindless_vertex_buffer_index: (r + 1) as u32, ..*old(self) }),
    {
        let new_buffer_index = self.next_bindless_vertex_buffer_index;
        self.next_bindless_vertex_buffer_index = self.next_bindless_vertex_buffer_index + 1;
        new_buffer_index
    }

    /// The next free index buffer slot of the bindless set; the slot is taken.
    pub fn add_bindless_index_buffer(&mut self) -> (r: u32)
        requires
            old(self).next_bindless_index_buffer_index < u32::MAX,
        ensures
            r == old(self).next_bindless_index_buffer_index,
            *final(self) == (Renderer { next_bindless_index_buffer_index: (r + 1) as u32, ..*old(self) }),
    {
        let new_buffer_index = self.next_bindless_index_buffer_index;
        self.next_bindless_index_buffer_index = self.next_bindless_index_buffer_index + 1;
        new_buffer_index
    }

    /// The index of a new material, added last.
    pub fn add_material(&mut self) -> (r: u32)
        requires
            old(self).num_gpu_materials < u32::MAX,
        ensures
            r == old(self).num_gpu_materials,
            *final(self) == (Renderer { num_gpu_materials: (r + 1) as u32, ..*old(self) }),
    {
        let material_index = self.num_gpu_materials;
        self.num_gpu_materials = self.num_gpu_materials + 1;
        material_index
    }

    /// The index of a new mesh, added last.
    pub fn add_mesh(&mut self, gpu_mesh: GpuMesh) -> (r: u32)
        requires
            old(self).gpu_meshes@.len() < u32::MAX,
        ensures
            r == old(self).gpu_meshes@.len(),
            final(self).gpu_meshes@ == old(self).gpu_meshes@.push(gpu_mesh),
            *final(self) == (Renderer { gpu_meshes: final(self).gpu_meshes, ..*old(self) }),
    {
        let gpu_index = self.gpu_meshes.len() as u32;
        self.gpu_meshes.push(gpu_mesh);
        gpu_index
    }

    /// The index of a new light, added last.
    pub fn add_light(&mut self) -> (r: u32)
        requires
            old(self).num_gpu_lights < u32::MAX,
        ensures
            r == old(self).num_gpu_lights,
            *final(self) == (Renderer { num_gpu_lights: (r + 1) as u32, ..*old(self) }),
    {
        let light_index = self.num_gpu_lights;
        self.num_gpu_lights = self.num_gpu_lights + 1;
        light_index
    }

    pub fn get_num_lights(&self) -> (r: u32)
        ensures
            r == self.num_gpu_lights,
    {
        self.num_gpu_lights
    }

    /// Takes the first four texture slots for the default diffuse, normal,
    /// occlusion and metallic-roughness maps, in that order.
    pub fn initialize(&mut self)
        requires
            old(self).next_bindless_image_index < u32::MAX - 4,
        ensures
            final(self).default_diffuse_map_index == old(self).next_bindless_image_index,
            final(self).default_normal_map_index == old(self).next_bindless_image_index + 1,
            final(self).default_occlusion_map_index == old(self).next_bindless_image_index + 2,
            final(self).default_metallic_roughness_map_index == old(self).next_bindless_image_index + 3,
            final(self).next_bindless_image_index == old(self).next_bindless_image_index + 4,
            final(self).gpu_meshes == old(self).gpu_meshes,
            final(self).num_gpu_materials == old(self).num_gpu_materials,
            final(self).num_gpu_lights == old(self).num_gpu_lights,
            final(self).next_bindless_vertex_buffer_index == old(self).next_bindless_vertex_buffer_index,
            final(self).next_bindless_index_buffer_index == old(self).next_bindless_index_buffer_index,
            final(self).need_environment_map_update == old(self).need_environment_map_update,
    {
        self.default_diffuse_map_index = self.add_bindless_texture();
        self.default_normal_map_index = self.add_bindless_texture();
        self.default_occlusion_map_index = self.add_bindless_texture();
        self.default_metallic_roughness_map_index = self.add_bindless_texture();
    }

    /// The slot of a material's texture: the default map's slot for
    /// `DEFAULT_TEXTURE_MAP`, else a new slot that the model texture is
    /// written to (recorded in `writes`).
    fn texture_slot(&mut self, map: u32, default_index: u32, writes: &mut Vec<(u32, u32)>) -> (r: u32)
        requires
            old(self).next_bindless_image_index < u32::MAX,
        ensures
            map == DEFAULT_TEXTURE_MAP ==> {
                &&& r == default_index
                &&& *final(self) == *old(self)
                &&& final(writes)@ == old(writes)@
            },
            map != DEFAULT_TEXTURE_MAP ==> {
                &&& r == old(self).next_bindless_image_index
                &&& *final(self) == (Renderer { next_bindless_image_index: (r + 1) as u32, ..*old(self) })
                &&& final(writes)@ == old(writes)@.push((map, r))
            },
    {
        if map == DEFAULT_TEXTURE_MAP {
            default_index
        } else {
            let slot = self.add_bindless_texture();
            writes.push((map, slot));
            slot
        }
    }

    /// Places one mesh of a model being added: its textures other than the
    /// defaults get new texture slots (diffuse, normal, metallic-roughness,
    /// occlusion, in that order), its vertex and index buffers get new
    /// slots, then its material and its mesh are added.
    pub fn add_model_mesh(&mut self, maps: MaterialMaps) -> (r: MeshPlacement)
        requires
            old(self).next_bindless_image_index < u32::MAX - 4,
            old(self).next_bindless_vertex_buffer_index < u32::MAX,
            old(self).next_bindless_index_buffer_index < u32::MAX,
            old(self).num_gpu_materials < u32::MAX,
            old(self).gpu_meshes@.len() < u32::MAX,
        ensures
            placement_matches(r, maps, *old(self), old(self).next_bindless_image_index as int, 0),
            final(self).next_bindless_image_index == old(self).next_bindless_image_index + maps_slots_used(maps),
            final(self).next_bindless_vertex_buffer_index == old(self).next_bindless_vertex_buffer_index + 1,
            final(self).next_bindless_index_buffer_index == old(self).next_bindless_index_buffer_index + 1,
            final(self).num_gpu_materials == old(self).num_gpu_materials + 1,
            final(self).gpu_meshes@ == old(self).gpu_meshes@.push(
                GpuMesh { vertex_buffer: r.vertex_buffer, index_buffer: r.index_buffer, material: r.material },
            ),
            same_lights_and_defaults(*old(self), *final(self)),
    {
        let ghost s0 = self.next_bindless_image_index as int;
        let mut writes: Vec<(u32, u32)> = Vec::new();
        let d = self.texture_slot(maps.diffuse_map, self.default_diffuse_map_index, &mut writes);
        assert(writes@ =~= new_slot_write(maps.diffuse_map, s0));
        let n = self.texture_slot(maps.normal_map, self.default_normal_map_index, &mut writes);
        assert(writes@ =~= new_slot_write(maps.diffuse_map, s0) + new_slot_write(
            maps.normal_map,
            s0 + slot_used(maps.diffuse_map),
        ));
        let m = self.texture_slot(
            maps.metallic_roughness_map,
            self.default_metallic_roughness_map_index,
            &mut writes,
        );
        assert(writes@ =~= new_slot_write(maps.diffuse_map, s0) + new_slot_write(
            maps.normal_map,
            s0 + slot_used(maps.diffuse_map),
        ) + new_slot_write(
            maps.metallic_roughness_map,
            s0 + slot_used(maps.diffuse_map) + slot_used(maps.normal_map),
        ));
        let c = self.texture_slot(maps.occlusion_map, self.default_occlusion_map_index, &mut writes);
        assert(writes@ =~= mesh_texture_writes(maps, s0));
        let vertex_buffer = self.add_bindless_vertex_buffer();
        let index_buffer = self.add_bindless_index_buffer();
        let material = self.add_material();
        let mesh = self.add_mesh(GpuMesh { vertex_buffer, index_buffer, material });
        MeshPlacement {
            maps: MaterialMaps {
                diffuse_map: d,
                normal_map: n,
                metallic_roughness_map: m,
                occlusion_map: c,
            },
            texture_writes: writes,
            vertex_buffer,
            index_buffer,
            material,
            mesh,
        }
    }
    /// Places the meshes of a model one after the other, each as
    /// `add_model_mesh` places it: the `k`th mesh takes its texture slots
    /// after those the earlier meshes took, and its buffers, material and
    /// mesh come `k` places after those of the renderer before the model.
    /// The materials and meshes must fit the tables the shaders read.
    pub fn add_model_meshes(&mut self, maps: &Vec<MaterialMaps>) -> (r: Vec<MeshPlacement>)
        requires
            old(self).next_bindless_image_index + slots_used(maps@) + 4 < u32::MAX,
            old(self).next_bindless_vertex_buffer_index + maps@.len() <= u32::MAX,
            old(self).next_bindless_index_buffer_index + maps@.len() <= u32::MAX,
            old(self).num_gpu_materials + maps@.len() <= MAX_NUM_GPU_MATERIALS,
            old(self).gpu_meshes@.len() + maps@.len() <= MAX_NUM_GPU_MESHES,
        ensures
            r@.len() == maps@.len(),
            forall|k: int|
                0 <= k < maps@.len() ==> placement_matches(
                    #[trigger] r@[k],
                    maps@[k],
                    *old(self),
                    old(self).next_bindless_image_index + slots_used(maps@.take(k)),
                    k,
                ),
            final(self).next_bindless_image_index == old(self).next_bindless_image_index + slots_used(maps@),
            final(self).next_bindless_vertex_buffer_index == old(self).next_bindless_vertex_buffer_index
                + maps@.len(),
            final(self).next_bindless_index_buffer_index == old(self).next_bindless_index_buffer_index
                + maps@.len(),
            final(self).num_gpu_materials == old(self).num_gpu_materials + maps@.len(),
            final(self).gpu_meshes@ == old(self).gpu_meshes@ + model_gpu_meshes(*old(self), maps@.len() as int),
            same_lights_and_defaults(*old(self), *final(self)),
    {
        let ghost o = *self;
        let mut r: Vec<MeshPlacement> = Vec::new();
        let mut k: usize = 0;
        proof {
            assert(maps@.take(0) =~= Seq::<MaterialMaps>::empty());
            assert(o.gpu_meshes@ + model_gpu_meshes(o, 0) =~= o.gpu_meshes@);
        }
        while k < maps.len()
            invariant
                k <= maps@.len(),
                r@.len() == k,
                o.next_bindless_image_index + slots_used(maps@) + 4 < u32::MAX,
                o.next_bindless_vertex_buffer_index + maps@.len() <= u32::MAX,
                o.next_bindless_index_buffer_index + maps@.len() <= u32::MAX,
                o.num_gpu_materials + maps@.len() <= MAX_NUM_GPU_MATERIALS,
                o.gpu_meshes@.len() + maps@.len() <= MAX_NUM_GPU_MESHES,
                self.next_bindless_image_index == o.next_bindless_image_index + slots_used(maps@.take(k as int)),
                self.next_bindless_vertex_buffer_index == o.next_bindless_vertex_buffer_index + k,
                self.next_bindless_index_buffer_index == o.next_bindless_index_buffer_index + k,
                self.num_gpu_materials == o.num_gpu_materials + k,
                self.gpu_meshes@ == o.gpu_meshes@ + model_gpu_meshes(o, k as int),
                same_lights_and_defaults(o, *self),
                forall|j: int|
                    0 <= j < k ==> placement_matches(
                        #[trigger] r@[j],
                        maps@[j],
                        o,
                        o.next_bindless_image_index + slots_used(maps@.take(j)),
                        j,
                    ),
            decreases maps@.len() - k,
        {
            proof {
                lemma_slots_used_prefix(maps@, k as int);
            }
            let placement = self.add_model_mesh(maps[k]);
            proof {
                assert(o.gpu_meshes@ + model_gpu_meshes(o, k + 1) =~= (o.gpu_meshes@ + model_gpu_meshes(
                    o,
                    k as int,
                )).push(
                    GpuMesh {
                        vertex_buffer: placement.vertex_buffer,
                        index_buffer: placement.index_buffer,
                        material: placement.material,
                    },
                ));
            }
            r.push(placement);
            k = k + 1;
        }
        proof {
            assert(maps@.take(maps@.len() as int) =~= maps@);
        }
        r
    }
    /// Whether the renderer has room for the meshes of a model, as
    /// `add_model_meshes` needs: the material and mesh tables the shaders
    /// read hold `MAX_NUM_GPU_MATERIALS` and `MAX_NUM_GPU_MESHES` entries.
    pub fn model_fits(&self, maps: &Vec<MaterialMaps>) -> (r: bool)
        ensures
            r == (self.next_bindless_image_index + slots_used(maps@) + 4 < u32::MAX
                && self.next_bindless_vertex_buffer_index + maps@.len() <= u32::MAX
                && self.next_bindless_index_buffer_index + maps@.len() <= u32::MAX
                && self.num_gpu_materials + maps@.len() <= MAX_NUM_GPU_MATERIALS
                && self.gpu_meshes@.len() + maps@.len() <= MAX_NUM_GPU_MESHES),
    {
        let mut slots: u64 = 0;
        let mut k: usize = 0;
        proof {
            assert(maps@.take(0) =~= Seq::<MaterialMaps>::empty());
        }
        while k < maps.len()
            invariant
                k <= maps@.len(),
                slots == slots_used(maps@.take(k as int)),
                slots <= u32::MAX,
            decreases maps@.len() - k,
        {
            proof {
                lemma_slots_used_prefix(maps@, k as int);
            }
            let m = maps[k];
            let mut used: u64 = 0;
            if m.diffuse_map != DEFAULT_TEXTURE_MAP {
                used = used + 1;
            }
            if m.normal_map != DEFAULT_TEXTURE_MAP {
                used = used + 1;
            }
            if m.metallic_roughness_map != DEFAULT_TEXTURE_MAP {
                used = used + 1;
            }
            if m.occlusion_map != DEFAULT_TEXTURE_MAP {
                used = used + 1;
            }
            slots = slots + used;
            if (self.next_bindless_image_index as u64) + slots + 4 >= u32::MAX as u64 {
                return false;
            }
            k = k + 1;
        }
        proof {
            assert(maps@.take(maps@.len() as int) =~= maps@);
        }
        let n = maps.len() as u64;
        (self.next_bindless_image_index as u64) + slots + 4 < u32::MAX as u64
            && n <= (u32::MAX - self.next_bindless_vertex_buffer_index) as u64
            && n <= (u32::MAX - self.next_bindless_index_buffer_index) as u64
            && (self.num_gpu_materials as u64) <= MAX_NUM_GPU_MATERIALS as u64
            && n <= MAX_NUM_GPU_MATERIALS as u64 - (self.num_gpu_materials as u64)
            && (self.gpu_meshes.len() as u64) <= MAX_NUM_GPU_MESHES as u64
            && n <= MAX_NUM_GPU_MESHES as u64 - (self.gpu_meshes.len() as u64)
    }
}

} // verus!
