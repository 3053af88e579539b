use vstd::prelude::*;

verus! {

/// Builds the index lists of the built-in meshes.
pub struct ModelLoader {}

/// Appends the three vertex indices of one triangle, in order.
pub fn add_triangle(indices: &mut Vec<u32>, v1: u32, v2: u32, v3: u32)
    ensures
        final(indices)@ == old(indices)@.push(v1).push(v2).push(v3),
{
    indices.push(v1);
    indices.push(v2);
    indices.push(v3);
}

pub open spec fn spec_cube_indices() -> Seq<u32> {
    seq![
        2, 0, 1, 0, 2, 3,
        4, 6, 5, 6, 4, 7,
        10, 8, 9, 8, 10, 11,
        12, 14, 13, 14, 12, 15,
        16, 18, 17, 18, 16, 19,
        22, 20, 21, 20, 22, 23,
    ]
}

impl ModelLoader {
    /// The indices of the single triangle model.
    pub fn triangle_indices() -> (r: Vec<u32>)
        ensures
            r@ == seq![0u32, 1, 2],
    {
        let mut indices: Vec<u32> = Vec::new();
        add_triangle(&mut indices, 0, 1, 2);
        assert(indices@ =~= seq![0u32, 1, 2]);
        indices
    }

    /// The indices of the unit cube: two triangles for each face (front,
    /// back, top, bottom, left, right), over four vertices per face.
    pub fn cube_indices() -> (r: Vec<u32>)
        ensures
            r@ == spec_cube_indices(),
    {
        let mut indices: Vec<u32> = Vec::new();
        // Front
        add_triangle(&mut indices, 2, 0, 1);
        add_triangle(&mut indices, 0, 2, 3);
        // Back
        add_triangle(&mut indices, 4, 6, 5);
        add_triangle(&mut indices, 6, 4, 7);
        // Top
        add_triangle(&mut indices, 10, 8, 9);
        add_triangle(&mut indices, 8, 10, 11);
        // Bottom
        add_triangle(&mut indices, 12, 14, 13);
        add_triangle(&mut indices, 14, 12, 15);
        // Left
        add_triangle(&mut indices, 16, 18, 17);
        add_triangle(&mut indices, 18, 16, 19);
        // Right
        add_triangle(&mut indices, 22, 20, 21);
        add_triangle(&mut indices, 20, 22, 23);
        assert(indices@ =~= spec_cube_indices());
        indices
    }
}

} // verus!
