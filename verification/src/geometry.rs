//! Vertex and index data of a mesh, on the CPU side, and the handles of its
//! copies on the device.

use vstd::prelude::*;
use crate::handles::BufferHandle;

verus! {

/// The single-precision encoding of `0.5`.
pub const HALF: u32 = 0x3F00_0000;

/// The single-precision encoding of `-0.5`.
pub const NEG_HALF: u32 = 0xBF00_0000;

/// The single-precision encoding of `0.0`.
pub const ZERO: u32 = 0x0000_0000;

/// A vertex: its position, each coordinate held as the 32-bit word that the
/// device reads as a single-precision number. The library moves these words
/// around and never does arithmetic on them.
#[derive(Clone, Copy, Debug, PartialEq, Eq)]
pub struct Vertex {
    pub position: [u32; 3],
}

impl Vertex {
    pub fn new(x: u32, y: u32, z: u32) -> (v: Self)
        ensures
            v == (Vertex { position: [x, y, z] }),
    {
        Vertex { position: [x, y, z] }
    }
}

/// Corner `k` of the unit cube centred on the origin: bit 0 of `k` picks the
/// right side, bit 1 the lower side, bit 2 the top plane.
pub open spec fn cube_vertex(k: int) -> Vertex {
    Vertex {
        position: [
            if k % 2 == 1 { HALF } else { NEG_HALF },
            if (k / 2) % 2 == 0 { HALF } else { NEG_HALF },
            if (k / 4) % 2 == 1 { HALF } else { NEG_HALF },
        ],
    }
}

/// The eight corners of the cube.
pub open spec fn cube_vertices() -> Seq<Vertex> {
    Seq::new(8, |k: int| cube_vertex(k))
}

/// Twelve triangles over the corners of the cube: top, front, right, back,
/// left, bottom.
pub open spec fn cube_indices() -> Seq<u16> {
    seq![
        4u16, 5u16, 7u16, 6u16, 4u16, 7u16,
        3u16, 2u16, 7u16, 2u16, 6u16, 7u16,
        7u16, 5u16, 1u16, 3u16, 7u16, 1u16,
        5u16, 4u16, 0u16, 1u16, 5u16, 0u16,
        4u16, 6u16, 2u16, 0u16, 4u16, 2u16,
        2u16, 3u16, 0u16, 1u16, 2u16, 0u16,
    ]
}

/// The corners of the unit square in the plane `z = 0`: top left, top right,
/// bottom left, bottom right.
pub open spec fn plane_vertices() -> Seq<Vertex> {
    seq![
        Vertex { position: [NEG_HALF, HALF, ZERO] },
        Vertex { position: [HALF, HALF, ZERO] },
        Vertex { position: [NEG_HALF, NEG_HALF, ZERO] },
        Vertex { position: [HALF, NEG_HALF, ZERO] },
    ]
}

/// Two triangles over the corners of the square.
pub open spec fn plane_indices() -> Seq<u16> {
    seq![0u16, 1u16, 3u16, 2u16, 0u16, 3u16]
}

/// The corners of the triangle: bottom left, top, bottom right.
pub open spec fn triangle_vertices() -> Seq<Vertex> {
    seq![
        Vertex { position: [NEG_HALF, NEG_HALF, ZERO] },
        Vertex { position: [ZERO, HALF, ZERO] },
        Vertex { position: [HALF, NEG_HALF, ZERO] },
    ]
}

/// The outline of the triangle, closed on its first corner.
pub open spec fn triangle_indices() -> Seq<u16> {
    seq![0u16, 1u16, 2u16, 0u16]
}

/// Whether every index names an existing vertex.
pub open spec fn indices_in_range(vertex_count: nat, indices: Seq<u16>) -> bool {
    forall|i: int| 0 <= i < indices.len() ==> (#[trigger] indices[i] as nat) < vertex_count
}

pub fn cube_vertex_data() -> (v: Vec<Vertex>)
    ensures
        v@ == cube_vertices(),
{
    let tl0 = Vertex::new(NEG_HALF, HALF, NEG_HALF);
    let tr0 = Vertex::new(HALF, HALF, NEG_HALF);
    let bl0 = Vertex::new(NEG_HALF, NEG_HALF, NEG_HALF);
    let br0 = Vertex::new(HALF, NEG_HALF, NEG_HALF);
    let tl1 = Vertex::new(NEG_HALF, HALF, HALF);
    let tr1 = Vertex::new(HALF, HALF, HALF);
    let bl1 = Vertex::new(NEG_HALF, NEG_HALF, HALF);
    let br1 = Vertex::new(HALF, NEG_HALF, HALF);
    let v = vec![tl0, tr0, bl0, br0, tl1, tr1, bl1, br1];
    assert(v@ =~= cube_vertices());
    v
}

pub fn cube_index_data() -> (v: Vec<u16>)
    ensures
        v@ == cube_indices(),
        indices_in_range(8, v@),
{
    let v: Vec<u16> = vec![
        4, 5, 7, 6, 4, 7,
        3, 2, 7, 2, 6, 7,
        7, 5, 1, 3, 7, 1,
        5, 4, 0, 1, 5, 0,
        4, 6, 2, 0, 4, 2,
        2, 3, 0, 1, 2, 0,
    ];
    assert(v@ =~= cube_indices());
    v
}

pub fn plane_vertex_data() -> (v: Vec<Vertex>)
    ensures
        v@ == plane_vertices(),
{
    let tl = Vertex { position: [NEG_HALF, HALF, ZERO] };
    let tr = Vertex { position: [HALF, HALF, ZERO] };
    let bl = Vertex { position: [NEG_HALF, NEG_HALF, ZERO] };
    let br = Vertex { position: [HALF, NEG_HALF, ZERO] };
    let v = vec![tl, tr, bl, br];
    assert(v@ =~= plane_vertices());
    v
}

pub fn plane_index_data() -> (v: Vec<u16>)
    ensures
        v@ == plane_indices(),
        indices_in_range(4, v@),
{
    let v: Vec<u16> = vec![0, 1, 3, 2, 0, 3];
    assert(v@ =~= plane_indices());
    v
}

pub fn triangle_vertex_data() -> (v: Vec<Vertex>)
    ensures
        v@ == triangle_vertices(),
{
    let v = vec![
        Vertex { position: [NEG_HALF, NEG_HALF, ZERO] },
        Vertex { position: [ZERO, HALF, ZERO] },
        Vertex { position: [HALF, NEG_HALF, ZERO] },
    ];
    assert(v@ =~= triangle_vertices());
    v
}

pub fn triangle_index_data() -> (v: Vec<u16>)
    ensures
        v@ == triangle_indices(),
        indices_in_range(3, v@),
{
    let v: Vec<u16> = vec![0, 1, 2, 0];
    assert(v@ =~= triangle_indices());
    v
}

/// What a mesh holds, as mathematical values.
pub struct GeometryView {
    pub vertices: Seq<Vertex>,
    pub indices: Seq<u16>,
    pub vertex_buffer: Option<BufferHandle>,
    pub index_buffer: Option<BufferHandle>,
    pub initialized: bool,
}

impl GeometryView {
    /// The device handles are there exactly when the mesh counts as
    /// initialized.
    pub open spec fn well_formed(self) -> bool {
        &&& self.vertex_buffer is Some <==> self.initialized
        &&& self.index_buffer is Some <==> self.initialized
    }

    /// Whether every index names a vertex of this mesh.
    pub open spec fn valid(self) -> bool {
        indices_in_range(self.vertices.len(), self.indices)
    }

    /// The mesh after an upload that produced the two given buffers. An
    /// initialized mesh stays as it is.
    pub open spec fn initialized_with(
        self,
        vertex_buffer: BufferHandle,
        index_buffer: BufferHandle,
    ) -> GeometryView {
        if self.initialized {
            self
        } else {
            GeometryView {
                vertex_buffer: Some(vertex_buffer),
                index_buffer: Some(index_buffer),
                initialized: true,
                ..self
            }
        }
    }

    /// The mesh with its CPU data replaced by that of a shape. An initialized
    /// mesh stays as it is: what has been uploaded is not regenerated.
    pub open spec fn generated(self, shape: GeometryType) -> GeometryView {
        if self.initialized {
            self
        } else {
            GeometryView {
                vertices: shape_vertices(shape),
                indices: shape_indices(shape),
                ..self
            }
        }
    }
}

/// The shapes that a geometry component can ask for.
#[derive(Clone, Copy, Debug, PartialEq, Eq, Structural)]
pub enum GeometryType {
    Box,
    Triangle,
    Plane,
}

/// The vertices of a shape.
pub open spec fn shape_vertices(shape: GeometryType) -> Seq<Vertex> {
    match shape {
        GeometryType::Box => cube_vertices(),
        GeometryType::Triangle => triangle_vertices(),
        GeometryType::Plane => plane_vertices(),
    }
}

/// The indices of a shape.
pub open spec fn shape_indices(shape: GeometryType) -> Seq<u16> {
    match shape {
        GeometryType::Box => cube_indices(),
        GeometryType::Triangle => triangle_indices(),
        GeometryType::Plane => plane_indices(),
    }
}

/// The mesh of one geometry: what the CPU holds, and the handles of the two
/// device buffers once the mesh has been uploaded.
#[derive(Debug, PartialEq, Eq)]
pub struct GeometryData {
    pub vertices: Vec<Vertex>,
    pub indices: Vec<u16>,
    pub vertex_buffer: Option<BufferHandle>,
    pub index_buffer: Option<BufferHandle>,
    pub initialized: bool,
}

impl View for GeometryData {
    type V = GeometryView;

    open spec fn view(&self) -> GeometryView {
        GeometryView {
            vertices: self.vertices@,
            indices: self.indices@,
            vertex_buffer: self.vertex_buffer,
            index_buffer: self.index_buffer,
            initialized: self.initialized,
        }
    }
}

impl GeometryData {
    /// A mesh that has not been uploaded.
    pub fn new(vertices: Vec<Vertex>, indices: Vec<u16>) -> (data: Self)
        ensures
            data@ == (GeometryView {
                vertices: vertices@,
                indices: indices@,
                vertex_buffer: None,
                index_buffer: None,
                initialized: false,
            }),
            data@.well_formed(),
    {
        GeometryData { vertices, indices, vertex_buffer: None, index_buffer: None, initialized: false }
    }

    /// Whether the mesh still has to be uploaded.
    pub fn needs_upload(&self) -> (pending: bool)
        ensures
            pending == !self@.initialized,
    {
        !self.initialized
    }

    /// Records the buffers of an upload. Does nothing to a mesh that is
    /// already initialized, and says so by returning `false`.
    pub fn initialize(
        &mut self,
        vertex_buffer: BufferHandle,
        index_buffer: BufferHandle,
    ) -> (recorded: bool)
        ensures
            final(self)@ == old(self)@.initialized_with(vertex_buffer, index_buffer),
            recorded == !old(self)@.initialized,
            final(self)@.initialized,
            old(self)@.well_formed() ==> final(self)@.well_formed(),
    {
        if self.initialized {
            false
        } else {
            self.vertex_buffer = Some(vertex_buffer);
            self.index_buffer = Some(index_buffer);
            self.initialized = true;
            true
        }
    }

    /// Checks that every index names a vertex of this mesh.
    pub fn validate(&self) -> (ok: bool)
        ensures
            ok == self@.valid(),
    {
        let count: usize = self.vertices.len();
        let mut i: usize = 0;
        while i < self.indices.len()
            invariant
                i <= self.indices@.len(),
                count == self.vertices@.len(),
                forall|j: int| 0 <= j < i ==> (#[trigger] self.indices@[j] as nat) < count,
            decreases self.indices@.len() - i,
        {
            if self.indices[i] as usize >= count {
                return false;
            }
            i += 1;
        }
        true
    }
}

/// Uploading once is the same as uploading twice: the second upload leaves
/// the mesh, its buffers and its flag as the first one left them, and no
/// upload touches the vertices or the indices.
pub proof fn lemma_initialize_idempotent(
    data: GeometryView,
    first: (BufferHandle, BufferHandle),
    second: (BufferHandle, BufferHandle),
)
    ensures
        data.initialized_with(first.0, first.1).initialized_with(second.0, second.1)
            == data.initialized_with(first.0, first.1),
        data.initialized_with(first.0, first.1).vertices == data.vertices,
        data.initialized_with(first.0, first.1).indices == data.indices,
        data.initialized_with(first.0, first.1).initialized,
{
}

/// Every shape's indices name vertices of that shape.
pub proof fn lemma_shapes_valid(shape: GeometryType)
    ensures
        indices_in_range(shape_vertices(shape).len(), shape_indices(shape)),
{
}

/// A mesh of a fixed shape.
pub trait Geometry: Sized {
    /// The mesh that the value holds.
    spec fn data(&self) -> GeometryView;

    /// The shape, not yet uploaded.
    fn create() -> (geometry: Self)
        ensures
            !geometry.data().initialized,
            geometry.data().well_formed(),
            geometry.data().valid(),
    ;

    /// Records the buffers of an upload; a no-op on an initialized mesh.
    fn initialize(&mut self, vertex_buffer: BufferHandle, index_buffer: BufferHandle)
        ensures
            final(self).data() == old(self).data().initialized_with(vertex_buffer, index_buffer),
    ;

    /// The vertex buffer of an uploaded mesh.
    fn vertex_buffer(&self) -> (handle: BufferHandle)
        requires
            self.data().vertex_buffer is Some,
        ensures
            self.data().vertex_buffer == Some(handle),
    ;

    /// The index buffer of an uploaded mesh.
    fn index_buffer(&self) -> (handle: BufferHandle)
        requires
            self.data().index_buffer is Some,
        ensures
            self.data().index_buffer == Some(handle),
    ;

    fn is_initialized(&self) -> (initialized: bool)
        ensures
            initialized == self.data().initialized,
    ;
}

/// The unit cube centred on the origin.
#[derive(Debug)]
pub struct CubeGeometry {
    pub data: GeometryData,
}

impl Geometry for CubeGeometry {
    open spec fn data(&self) -> GeometryView {
        self.data@
    }

    fn create() -> (geometry: Self)
        ensures
            geometry.data@ == (GeometryView {
                vertices: cube_vertices(),
                indices: cube_indices(),
                vertex_buffer: None,
                index_buffer: None,
                initialized: false,
            }),
    {
        CubeGeometry { data: GeometryData::new(cube_vertex_data(), cube_index_data()) }
    }

    fn initialize(&mut self, vertex_buffer: BufferHandle, index_buffer: BufferHandle) {
        self.data.initialize(vertex_buffer, index_buffer);
    }

    fn vertex_buffer(&self) -> (handle: BufferHandle) {
        self.data.vertex_buffer.unwrap()
    }

    fn index_buffer(&self) -> (handle: BufferHandle) {
        self.data.index_buffer.unwrap()
    }

    fn is_initialized(&self) -> (initialized: bool) {
        self.data.initialized
    }
}

/// What a geometry component holds, as mathematical values.
pub struct GeometryComponentView {
    pub geometry_type: GeometryType,
    pub data: GeometryView,
}

impl GeometryComponentView {
    /// The component after its mesh has been generated from its shape.
    pub open spec fn generated(self) -> GeometryComponentView {
        GeometryComponentView { geometry_type: self.geometry_type, data: self.data.generated(self.geometry_type) }
    }
}

/// The geometry of a scene entity: which shape it is, and its mesh.
#[derive(Debug, PartialEq, Eq)]
pub struct GeometryComponent {
    pub geometry_type: GeometryType,
    pub data: GeometryData,
}

impl View for GeometryComponent {
    type V = GeometryComponentView;

    open spec fn view(&self) -> GeometryComponentView {
        GeometryComponentView { geometry_type: self.geometry_type, data: self.data@ }
    }
}

impl GeometryComponent {
    /// A component of the given shape whose mesh has not been generated.
    pub fn create(geometry_type: GeometryType) -> (component: Self)
        ensures
            component@ == (GeometryComponentView {
                geometry_type,
                data: GeometryView {
                    vertices: Seq::empty(),
                    indices: Seq::empty(),
                    vertex_buffer: None,
                    index_buffer: None,
                    initialized: false,
                },
            }),
    {
        GeometryComponent { geometry_type, data: GeometryData::new(Vec::new(), Vec::new()) }
    }

    /// Records the buffers of an upload; a no-op on an initialized mesh.
    pub fn initialize(
        &mut self,
        vertex_buffer: BufferHandle,
        index_buffer: BufferHandle,
    ) -> (recorded: bool)
        ensures
            final(self)@.geometry_type == old(self)@.geometry_type,
            final(self)@.data == old(self)@.data.initialized_with(vertex_buffer, index_buffer),
            recorded == !old(self)@.data.initialized,
    {
        self.data.initialize(vertex_buffer, index_buffer)
    }
}

} // verus!
