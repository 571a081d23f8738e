use vstd::prelude::*;

verus! {

/// The number of vertices of the cube.
pub const VERTEX_COUNT: u16 = 8;

/// The number of indices of the cube: two triangles on each of six faces.
pub const INDEX_COUNT: i32 = 36;

/// The size in bytes of one vertex: three position then three color components,
/// four bytes each, interleaved.
pub const VERTEX_STRIDE: i32 = 24;

/// The triangles of the cube, three vertex indices each.
pub open spec fn cube_indices_spec() -> Seq<u16> {
    seq![
        0, 2, 1, 2, 0, 3, 4, 6, 5, 6, 4, 7, 2, 6, 7, 7, 1, 2, 0, 4, 5, 5, 3, 0, 3, 5, 6, 6, 2, 3,
        0, 1, 7, 7, 4, 0,
    ]
}

pub fn cube_indices() -> (r: Vec<u16>)
    ensures
        r@ == cube_indices_spec(),
        r@.len() == INDEX_COUNT,
        forall|i: int| 0 <= i < r@.len() ==> r@[i] < VERTEX_COUNT,
{
    let r: Vec<u16> = vec![
        0, 2, 1, 2, 0, 3, 4, 6, 5, 6, 4, 7, 2, 6, 7, 7, 1, 2, 0, 4, 5, 5, 3, 0, 3, 5, 6, 6, 2, 3,
        0, 1, 7, 7, 4, 0,
    ];
    assert(r@ =~= cube_indices_spec());
    r
}

/// How one vertex attribute is read from the interleaved vertex buffer.
#[derive(Clone, Copy, Debug, PartialEq, Eq, Structural)]
pub struct AttribLayout {
    /// The attribute location.
    pub index: u32,
    /// The number of float components.
    pub size: i32,
    /// The distance in bytes from one vertex to the next.
    pub stride: i32,
    /// The offset in bytes of the attribute within a vertex.
    pub offset: usize,
}

/// Position at location 0, color at location 1, both three floats of one
/// interleaved vertex.
pub open spec fn attrib_layouts_spec() -> Seq<AttribLayout> {
    seq![
        AttribLayout { index: 0, size: 3, stride: VERTEX_STRIDE, offset: 0 },
        AttribLayout { index: 1, size: 3, stride: VERTEX_STRIDE, offset: 12 },
    ]
}

pub fn attrib_layouts() -> (r: Vec<AttribLayout>)
    ensures
        r@ == attrib_layouts_spec(),
{
    let r = vec![
        AttribLayout { index: 0, size: 3, stride: VERTEX_STRIDE, offset: 0 },
        AttribLayout { index: 1, size: 3, stride: VERTEX_STRIDE, offset: 12 },
    ];
    assert(r@ =~= attrib_layouts_spec());
    r
}

/// The cube's vertex buffer, index buffer and the vertex array that binds them.
/// Nothing about it changes after construction.
#[derive(Clone, Copy, Debug, PartialEq, Eq, Structural)]
pub struct Geometry {
    vertex_array: u32,
    vertex_buffer: u32,
    index_buffer: u32,
}

impl Geometry {
    pub closed spec fn spec_vertex_array(&self) -> u32 {
        self.vertex_array
    }

    pub closed spec fn spec_vertex_buffer(&self) -> u32 {
        self.vertex_buffer
    }

    pub closed spec fn spec_index_buffer(&self) -> u32 {
        self.index_buffer
    }

    /// Holds a vertex buffer filled with `vertex_bytes` bytes of vertices, an index
    /// buffer filled with `indices`, and the vertex array recorded over them with
    /// `layouts`. It is accepted only where these are the cube's: eight interleaved
    /// vertices, `cube_indices` and `attrib_layouts`.
    pub fn new(
        vertex_array: u32,
        vertex_buffer: u32,
        index_buffer: u32,
        vertex_bytes: usize,
        indices: &Vec<u16>,
        layouts: &Vec<AttribLayout>,
    ) -> (r: Option<Geometry>)
        ensures
            r is Some <==> vertex_bytes == VERTEX_COUNT * VERTEX_STRIDE && indices@
                == cube_indices_spec() && layouts@ == attrib_layouts_spec(),
            r matches Some(g) ==> g.spec_vertex_array() == vertex_array && g.spec_vertex_buffer()
                == vertex_buffer && g.spec_index_buffer() == index_buffer,
    {
        if vertex_bytes != VERTEX_COUNT as usize * VERTEX_STRIDE as usize {
            return None;
        }
        let expected = cube_indices();
        if indices.len() != expected.len() {
            return None;
        }
        let mut i: usize = 0;
        while i < indices.len()
            invariant
                expected@ == cube_indices_spec(),
                indices@.len() == expected@.len(),
                0 <= i <= indices@.len(),
                forall|j: int| 0 <= j < i ==> indices@[j] == expected@[j],
            decreases indices@.len() - i,
        {
            if indices[i] != expected[i] {
                return None;
            }
            i = i + 1;
        }
        assert(indices@ =~= cube_indices_spec());
        let expected = attrib_layouts();
        if layouts.len() != 2 || layouts[0] != expected[0] || layouts[1] != expected[1] {
            return None;
        }
        assert(layouts@ =~= attrib_layouts_spec());
        Some(Geometry { vertex_array, vertex_buffer, index_buffer })
    }

    /// The number of indices to draw.
    pub fn count(&self) -> (r: i32)
        ensures
            r == INDEX_COUNT,
            r == cube_indices_spec().len(),
    {
        INDEX_COUNT
    }

    pub fn vertex_array(&self) -> (r: u32)
        ensures
            r == self.spec_vertex_array(),
    {
        self.vertex_array
    }

    pub fn vertex_buffer(&self) -> (r: u32)
        ensures
            r == self.spec_vertex_buffer(),
    {
        self.vertex_buffer
    }

    pub fn index_buffer(&self) -> (r: u32)
        ensures
            r == self.spec_index_buffer(),
    {
        self.index_buffer
    }
}

} // verus!
