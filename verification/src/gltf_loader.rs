use vstd::prelude::*;

verus! {

/// The texture index of a material that has no texture of its own for a map.
pub const DEFAULT_TEXTURE_MAP: u32 = 0xffff_ffff;

/// How a material scatters light in the path tracer.
#[derive(Clone, Copy, Debug, PartialEq, Eq, Structural)]
pub enum MaterialType {
    Lambertian,
    Metal,
    Dielectric,
    DiffuseLight,
}

impl MaterialType {
    /// The code the shaders use: 0 lambertian, 1 metal, 2 dielectric, 3
    /// diffuse light.
    pub fn code(&self) -> (r: u32)
        ensures
            *self == MaterialType::Lambertian ==> r == 0,
            *self == MaterialType::Metal ==> r == 1,
            *self == MaterialType::Dielectric ==> r == 2,
            *self == MaterialType::DiffuseLight ==> r == 3,
    {
        match self {
            MaterialType::Lambertian => 0,
            MaterialType::Metal => 1,
            MaterialType::Dielectric => 2,
            MaterialType::DiffuseLight => 3,
        }
    }
}

/// Where a primitive's vertices and indices sit in its model's shared
/// buffers.
#[derive(Clone, Copy, Debug, PartialEq, Eq, Structural)]
pub struct MeshRange {
    pub first_vertex: u32,
    pub first_index: u32,
    pub index_count: u32,
}

/// The texture index a material map refers to: the texture's own index, or
/// `DEFAULT_TEXTURE_MAP` when the material has no texture for the map.
pub fn texture_map_index(texture: Option<usize>) -> (r: u32)
    ensures
        texture is None ==> r == DEFAULT_TEXTURE_MAP,
        texture matches Some(i) ==> r == i as u32,
{
    match texture {
        Some(i) => i as u32,
        None => DEFAULT_TEXTURE_MAP,
    }
}

/// Appends the indices of a primitive whose vertices are appended after
/// `vertex_count` vertices: each index is moved past those vertices. Returns
/// where the primitive sits.
pub fn append_primitive_indices(indices: &mut Vec<u32>, vertex_count: usize, new_indices: &Vec<u32>) -> (r:
    MeshRange)
    requires
        vertex_count <= u32::MAX,
        old(indices)@.len() <= u32::MAX,
        new_indices@.len() <= u32::MAX,
        forall|i: int| 0 <= i < new_indices@.len() ==> new_indices@[i] + vertex_count <= u32::MAX,
    ensures
        r.first_vertex == vertex_count,
        r.first_index == old(indices)@.len(),
        r.index_count == new_indices@.len(),
        final(indices)@ == old(indices)@ + new_indices@.map_values(|x: u32| (x + vertex_count) as u32),
{
    let first_vertex = vertex_count as u32;
    let first_index = indices.len() as u32;
    let index_count = new_indices.len() as u32;
    let ghost before = indices@;
    let mut i: usize = 0;
    while i < new_indices.len()
        invariant
            i <= new_indices@.len(),
            first_vertex == vertex_count,
            forall|j: int| 0 <= j < new_indices@.len() ==> new_indices@[j] + vertex_count <= u32::MAX,
            indices@ == before + new_indices@.take(i as int).map_values(|x: u32| (x + vertex_count) as u32),
        decreases new_indices@.len() - i,
    {
        indices.push(new_indices[i] + first_vertex);
        i = i + 1;
        assert(indices@ =~= before + new_indices@.take(i as int).map_values(|x: u32| (x + vertex_count) as u32));
    }
    assert(new_indices@.take(new_indices@.len() as int) =~= new_indices@);
    MeshRange { first_vertex, first_index, index_count }
}

} // verus!
