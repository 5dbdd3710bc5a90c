//! Vertex data, its formats, and the geometry resources that hold it on the
//! device.
use std::marker::PhantomData;
use vstd::prelude::*;
use crate::error::Error;
use crate::error::ErrorKind;
use crate::gl::constants::ARRAY_BUFFER;
use crate::gl::constants::STATIC_DRAW;
use crate::gl::context::GL;
use crate::gl::device::BufferHandle;
use crate::gl::device::Command;
use crate::gl::device::Component;
use crate::gl::device::Device;
use crate::gl::device::Event;
use crate::gl::device::Query;
use crate::gl::device::Reply;
use crate::gl::device::VertexArrayHandle;
use crate::gl::shader::DrawArrayMode;
use crate::gl::shader::Drawable;
use crate::gl::shader::Layout;
use crate::gl::shader::VertexAttribute;
use crate::math::scalar::Scalar;
use crate::math::vector::Vector2;
use crate::math::vector::Vector3;
use crate::math::vector::Vector4;

verus! {

/// The bytes that one component takes in a vertex buffer.
pub const COMPONENT_BYTES: usize = 4;

/// The vertex formats that the crate knows.
#[derive(Debug, Clone, Copy, PartialEq, Eq, Structural)]
pub enum VertexFormat {
    /// A position of three components followed by a colour of four, drawn as
    /// a strip.
    ColoredStrip,
    /// A position of three components followed by a texture coordinate of
    /// two, drawn as a strip.
    UVMappedStrip,
    /// The same vertices, drawn as a list of triangles.
    UVMappedList,
    /// Positions of three components and nothing else, drawn as a strip.
    PlainStrip,
}

impl VertexFormat {
    /// How vertices of this format join into triangles.
    pub open spec fn spec_draw_array_mode(self) -> DrawArrayMode {
        match self {
            VertexFormat::UVMappedList => DrawArrayMode::TriangleList,
            _ => DrawArrayMode::TriangleStrip,
        }
    }

    /// The number of components that one vertex of this format has.
    pub open spec fn spec_components_per_vertex(self) -> usize {
        match self {
            VertexFormat::ColoredStrip => 7,
            VertexFormat::UVMappedStrip => 5,
            VertexFormat::UVMappedList => 5,
            VertexFormat::PlainStrip => 3,
        }
    }

    /// Where the positions of this format are.
    pub open spec fn spec_position(self) -> Option<VertexAttribute> {
        match self {
            VertexFormat::ColoredStrip => Some(VertexAttribute { offset: 0, size: 3, stride: 28 }),
            VertexFormat::UVMappedStrip => Some(VertexAttribute { offset: 0, size: 3, stride: 20 }),
            VertexFormat::UVMappedList => Some(VertexAttribute { offset: 0, size: 3, stride: 20 }),
            VertexFormat::PlainStrip => Some(VertexAttribute { offset: 0, size: 3, stride: 0 }),
        }
    }

    /// Where the colours of this format are, if it has any.
    pub open spec fn spec_color(self) -> Option<VertexAttribute> {
        match self {
            VertexFormat::ColoredStrip => Some(VertexAttribute { offset: 12, size: 4, stride: 28 }),
            _ => None,
        }
    }

    /// Where the texture coordinates of this format are, if it has any.
    pub open spec fn spec_texture_coordination(self) -> Option<VertexAttribute> {
        match self {
            VertexFormat::UVMappedStrip => Some(VertexAttribute { offset: 12, size: 2, stride: 20 }),
            VertexFormat::UVMappedList => Some(VertexAttribute { offset: 12, size: 2, stride: 20 }),
            _ => None,
        }
    }

    /// Whether `attribute` lies within one vertex of this format: it starts
    /// at a component, ends before the vertex does, and its stride is the
    /// size of the vertex, or zero if the attribute is all there is.
    pub open spec fn holds(self, attribute: VertexAttribute) -> bool {
        &&& attribute.offset % COMPONENT_BYTES == 0
        &&& attribute.offset / COMPONENT_BYTES + attribute.size
            <= self.spec_components_per_vertex()
        &&& attribute.size > 0
        &&& if attribute.stride == 0 {
            attribute.offset == 0 && attribute.size == self.spec_components_per_vertex()
        } else {
            attribute.stride == self.spec_components_per_vertex() * COMPONENT_BYTES
        }
    }

    /// How vertices of this format join into triangles.
    #[verifier::when_used_as_spec(spec_draw_array_mode)]
    pub fn draw_array_mode(self) -> (mode: DrawArrayMode)
        ensures
            mode == self.spec_draw_array_mode(),
    {
        match self {
            VertexFormat::UVMappedList => DrawArrayMode::TriangleList,
            _ => DrawArrayMode::TriangleStrip,
        }
    }

    /// The number of components that one vertex of this format has.
    #[verifier::when_used_as_spec(spec_components_per_vertex)]
    pub fn components_per_vertex(self) -> (n: usize)
        ensures
            n == self.spec_components_per_vertex(),
    {
        match self {
            VertexFormat::ColoredStrip => 7,
            VertexFormat::UVMappedStrip => 5,
            VertexFormat::UVMappedList => 5,
            VertexFormat::PlainStrip => 3,
        }
    }

    /// Where the positions of this format are.
    #[verifier::when_used_as_spec(spec_position)]
    pub fn position(self) -> (attribute: Option<VertexAttribute>)
        ensures
            attribute == self.spec_position(),
    {
        match self {
            VertexFormat::ColoredStrip => Some(VertexAttribute { offset: 0, size: 3, stride: 28 }),
            VertexFormat::UVMappedStrip => Some(VertexAttribute { offset: 0, size: 3, stride: 20 }),
            VertexFormat::UVMappedList => Some(VertexAttribute { offset: 0, size: 3, stride: 20 }),
            VertexFormat::PlainStrip => Some(VertexAttribute { offset: 0, size: 3, stride: 0 }),
        }
    }

    /// Where the colours of this format are, if it has any.
    #[verifier::when_used_as_spec(spec_color)]
    pub fn color(self) -> (attribute: Option<VertexAttribute>)
        ensures
            attribute == self.spec_color(),
    {
        match self {
            VertexFormat::ColoredStrip => Some(VertexAttribute { offset: 12, size: 4, stride: 28 }),
            _ => None,
        }
    }

    /// Where the texture coordinates of this format are, if it has any.
    #[verifier::when_used_as_spec(spec_texture_coordination)]
    pub fn texture_coordination(self) -> (attribute: Option<VertexAttribute>)
        ensures
            attribute == self.spec_texture_coordination(),
    {
        match self {
            VertexFormat::UVMappedStrip => Some(VertexAttribute { offset: 12, size: 2, stride: 20 }),
            VertexFormat::UVMappedList => Some(VertexAttribute { offset: 12, size: 2, stride: 20 }),
            _ => None,
        }
    }
}

/// Every attribute that a format declares lies within one vertex of it, and
/// no two of them overlap: the position comes first, and the colour or the
/// texture coordinate starts where the position ends.
pub proof fn lemma_format_is_consistent(format: VertexFormat)
    ensures
        format.spec_position() matches Some(p) && format.holds(p),
        format.spec_color() matches Some(c) ==> format.holds(c) && c.offset
            == format.spec_position().unwrap().size * COMPONENT_BYTES,
        format.spec_texture_coordination() matches Some(t) ==> format.holds(t) && t.offset
            == format.spec_position().unwrap().size * COMPONENT_BYTES,
        !(format.spec_color() is Some && format.spec_texture_coordination() is Some),
{
}

/// The components of a vertex with a position and a texture coordinate.
pub open spec fn uv_vertex(vertex: (Vector3, Vector2)) -> Seq<Component> {
    seq![
        Component::Scalar(vertex.0.x),
        Component::Scalar(vertex.0.y),
        Component::Scalar(vertex.0.z),
        Component::Scalar(vertex.1.x),
        Component::Scalar(vertex.1.y),
    ]
}

/// The components of a vertex with a position and a colour.
pub open spec fn colored_vertex(vertex: (Vector3, Vector4)) -> Seq<Component> {
    seq![
        Component::Scalar(vertex.0.x),
        Component::Scalar(vertex.0.y),
        Component::Scalar(vertex.0.z),
        Component::Scalar(vertex.1.x),
        Component::Scalar(vertex.1.y),
        Component::Scalar(vertex.1.z),
        Component::Scalar(vertex.1.w),
    ]
}

/// The buffer that holds the given vertices one after the other, each as
/// `per_vertex` components.
pub open spec fn interleaved(vertices: Seq<Seq<Component>>, per_vertex: int) -> Seq<Component> {
    Seq::new(
        (vertices.len() * per_vertex) as nat,
        |j: int| vertices[j / per_vertex][j % per_vertex],
    )
}

/// The buffer of a sequence of vertices with texture coordinates.
pub open spec fn uv_components(vertices: Seq<(Vector3, Vector2)>) -> Seq<Component> {
    interleaved(vertices.map_values(|v: (Vector3, Vector2)| uv_vertex(v)), 5)
}

/// The buffer of a sequence of vertices with colours.
pub open spec fn colored_components(vertices: Seq<(Vector3, Vector4)>) -> Seq<Component> {
    interleaved(vertices.map_values(|v: (Vector3, Vector4)| colored_vertex(v)), 7)
}

/// The buffer of a sequence of bare scalars.
pub open spec fn plain_components(scalars: Seq<Scalar>) -> Seq<Component> {
    scalars.map_values(|s: Scalar| Component::Scalar(s))
}

/// The index in a buffer at which an attribute of a vertex starts: the byte
/// at which the vertex starts, plus the attribute's offset, counted in
/// components.
pub open spec fn attribute_start(attribute: VertexAttribute, per_vertex: int, vertex: int) -> int {
    let stride = if attribute.stride == 0 {
        per_vertex * COMPONENT_BYTES
    } else {
        attribute.stride as int
    };
    (vertex * stride + attribute.offset) / (COMPONENT_BYTES as int)
}

/// An interleaved buffer holds as many components as its vertices have
/// together, and component `k` of vertex `i` sits at index
/// `i * per_vertex + k`.
pub proof fn lemma_interleaved(vertices: Seq<Seq<Component>>, per_vertex: int)
    requires
        per_vertex > 0,
        forall|i: int| 0 <= i < vertices.len() ==> (#[trigger] vertices[i]).len() == per_vertex,
    ensures
        interleaved(vertices, per_vertex).len() == vertices.len() * per_vertex,
        forall|i: int, k: int|
            0 <= i < vertices.len() && 0 <= k < per_vertex ==> #[trigger] interleaved(
                vertices,
                per_vertex,
            )[i * per_vertex + k] == vertices[i][k],
{
    let total = vertices.len() * per_vertex;
    assert(total >= 0) by (nonlinear_arith)
        requires
            vertices.len() >= 0,
            per_vertex > 0,
            total == vertices.len() * per_vertex,
    ;
    assert(interleaved(vertices, per_vertex).len() == total);
    assert forall|i: int, k: int|
        0 <= i < vertices.len() && 0 <= k < per_vertex implies #[trigger] interleaved(
        vertices,
        per_vertex,
    )[i * per_vertex + k] == vertices[i][k] by {
        let j = i * per_vertex + k;
        assert(0 <= j < total) by (nonlinear_arith)
            requires
                0 <= i < vertices.len(),
                0 <= k < per_vertex,
                j == i * per_vertex + k,
                total == vertices.len() * per_vertex,
        ;
        vstd::arithmetic::div_mod::lemma_fundamental_div_mod_converse(j, per_vertex, i, k);
        assert(j / per_vertex == i);
        assert(j % per_vertex == k);
        assert(interleaved(vertices, per_vertex)[j] == vertices[j / per_vertex][j % per_vertex]);
    }
}

/// The layout of vertices with texture coordinates is the one that their
/// format declares. The buffer holds five components for each vertex; the
/// position attribute of vertex `i` starts at its `x`, `y` and `z`, and the
/// texture coordinate attribute at its two coordinates. The same holds of
/// the strip and of the list.
pub proof fn lemma_uv_layout(vertices: Seq<(Vector3, Vector2)>, i: int)
    requires
        0 <= i < vertices.len(),
    ensures
        uv_components(vertices).len() == 5 * vertices.len(),
        ({
            let buffer = uv_components(vertices);
            let p = attribute_start(VertexFormat::UVMappedStrip.spec_position().unwrap(), 5, i);
            let t = attribute_start(
                VertexFormat::UVMappedStrip.spec_texture_coordination().unwrap(),
                5,
                i,
            );
            &&& 0 <= p && p + 3 == t && t + 2 <= buffer.len()
            &&& buffer[p] == Component::Scalar(vertices[i].0.x)
            &&& buffer[p + 1] == Component::Scalar(vertices[i].0.y)
            &&& buffer[p + 2] == Component::Scalar(vertices[i].0.z)
            &&& buffer[t] == Component::Scalar(vertices[i].1.x)
            &&& buffer[t + 1] == Component::Scalar(vertices[i].1.y)
        }),
        VertexFormat::UVMappedList.spec_position() == VertexFormat::UVMappedStrip.spec_position(),
        VertexFormat::UVMappedList.spec_texture_coordination()
            == VertexFormat::UVMappedStrip.spec_texture_coordination(),
{
    let each = vertices.map_values(|v: (Vector3, Vector2)| uv_vertex(v));
    lemma_interleaved(each, 5);
    let buffer = uv_components(vertices);
    assert((i * 20 + 0) / 4 == i * 5);
    assert((i * 20 + 12) / 4 == i * 5 + 3);
    assert(buffer[i * 5 + 0] == each[i][0]);
    assert(buffer[i * 5 + 1] == each[i][1]);
    assert(buffer[i * 5 + 2] == each[i][2]);
    assert(buffer[i * 5 + 3] == each[i][3]);
    assert(buffer[i * 5 + 4] == each[i][4]);
}

/// The layout of vertices with colours is the one that their format
/// declares. The buffer holds seven components for each vertex; the position
/// attribute of vertex `i` starts at its `x`, `y` and `z`, and the colour
/// attribute at its four channels.
pub proof fn lemma_colored_layout(vertices: Seq<(Vector3, Vector4)>, i: int)
    requires
        0 <= i < vertices.len(),
    ensures
        colored_components(vertices).len() == 7 * vertices.len(),
        ({
            let buffer = colored_components(vertices);
            let p = attribute_start(VertexFormat::ColoredStrip.spec_position().unwrap(), 7, i);
            let c = attribute_start(VertexFormat::ColoredStrip.spec_color().unwrap(), 7, i);
            &&& 0 <= p && p + 3 == c && c + 4 <= buffer.len()
            &&& buffer[p] == Component::Scalar(vertices[i].0.x)
            &&& buffer[p + 1] == Component::Scalar(vertices[i].0.y)
            &&& buffer[p + 2] == Component::Scalar(vertices[i].0.z)
            &&& buffer[c] == Component::Scalar(vertices[i].1.x)
            &&& buffer[c + 1] == Component::Scalar(vertices[i].1.y)
            &&& buffer[c + 2] == Component::Scalar(vertices[i].1.z)
            &&& buffer[c + 3] == Component::Scalar(vertices[i].1.w)
        }),
{
    let each = vertices.map_values(|v: (Vector3, Vector4)| colored_vertex(v));
    lemma_interleaved(each, 7);
    let buffer = colored_components(vertices);
    assert((i * 28 + 0) / 4 == i * 7);
    assert((i * 28 + 12) / 4 == i * 7 + 3);
    assert(buffer[i * 7 + 0] == each[i][0]);
    assert(buffer[i * 7 + 1] == each[i][1]);
    assert(buffer[i * 7 + 2] == each[i][2]);
    assert(buffer[i * 7 + 3] == each[i][3]);
    assert(buffer[i * 7 + 4] == each[i][4]);
    assert(buffer[i * 7 + 5] == each[i][5]);
    assert(buffer[i * 7 + 6] == each[i][6]);
}

/// The layout of bare positions is the one that their format declares: the
/// position attribute of vertex `i` starts at the three scalars of that
/// vertex, which follow one another without a gap.
pub proof fn lemma_plain_layout(scalars: Seq<Scalar>, i: int)
    requires
        0 <= i < scalars.len() / 3,
    ensures
        plain_components(scalars).len() == scalars.len(),
        ({
            let buffer = plain_components(scalars);
            let p = attribute_start(VertexFormat::PlainStrip.spec_position().unwrap(), 3, i);
            &&& p == 3 * i && p + 3 <= buffer.len()
            &&& buffer[p] == Component::Scalar(scalars[p])
            &&& buffer[p + 1] == Component::Scalar(scalars[p + 1])
            &&& buffer[p + 2] == Component::Scalar(scalars[p + 2])
        }),
{
    let position = VertexFormat::PlainStrip.spec_position().unwrap();
    assert(attribute_start(position, 3, i) == (i * 12 + 0) / 4);
    assert((i * 12 + 0) / 4 == 3 * i);
}

/// Vertex data that can be handed to the device.
pub trait VertexAttributeArray {
    /// The format of the data, as a specification value.
    spec fn spec_format() -> VertexFormat;

    /// The buffer that `as_slice` builds, as a specification value.
    spec fn components(&self) -> Seq<Component>;

    /// The number that `vertex_count` returns, as a specification value.
    spec fn spec_vertex_count(&self) -> i32;

    /// The format of the data: its draw mode and where its attributes are.
    fn format() -> (format: VertexFormat)
        ensures
            format == Self::spec_format(),
    ;

    /// The data as one flat buffer, vertex after vertex, each with its
    /// components in the order of the format.
    fn as_slice(&self) -> (buffer: Vec<Component>)
        ensures
            buffer@ == self.components(),
    ;

    /// The number of vertices in the data.
    fn vertex_count(&self) -> (count: i32)
        ensures
            count == self.spec_vertex_count(),
    ;
}

/// Builds the buffer of vertices with texture coordinates.
fn flatten_uv(vertices: &[(Vector3, Vector2)]) -> (buffer: Vec<Component>)
    ensures
        buffer@ == uv_components(vertices@),
{
    let mut buffer: Vec<Component> = Vec::new();
    let mut i: usize = 0;
    while i < vertices.len()
        invariant
            i <= vertices.len(),
            buffer@.len() == 5 * i,
            forall|j: int| 0 <= j < 5 * i ==> buffer@[j] == uv_vertex(vertices@[j / 5])[j % 5],
        decreases vertices.len() - i,
    {
        let vertex = vertices[i];
        buffer.push(Component::Scalar(vertex.0.x));
        buffer.push(Component::Scalar(vertex.0.y));
        buffer.push(Component::Scalar(vertex.0.z));
        buffer.push(Component::Scalar(vertex.1.x));
        buffer.push(Component::Scalar(vertex.1.y));
        i += 1;
    }
    assert(buffer@ =~= uv_components(vertices@));
    buffer
}

/// Builds the buffer of vertices with colours.
fn flatten_colored(vertices: &[(Vector3, Vector4)]) -> (buffer: Vec<Component>)
    ensures
        buffer@ == colored_components(vertices@),
{
    let mut buffer: Vec<Component> = Vec::new();
    let mut i: usize = 0;
    while i < vertices.len()
        invariant
            i <= vertices.len(),
            buffer@.len() == 7 * i,
            forall|j: int| 0 <= j < 7 * i ==> buffer@[j] == colored_vertex(vertices@[j / 7])[j % 7],
        decreases vertices.len() - i,
    {
        let vertex = vertices[i];
        buffer.push(Component::Scalar(vertex.0.x));
        buffer.push(Component::Scalar(vertex.0.y));
        buffer.push(Component::Scalar(vertex.0.z));
        buffer.push(Component::Scalar(vertex.1.x));
        buffer.push(Component::Scalar(vertex.1.y));
        buffer.push(Component::Scalar(vertex.1.z));
        buffer.push(Component::Scalar(vertex.1.w));
        i += 1;
    }
    assert(buffer@ =~= colored_components(vertices@));
    buffer
}

/// Vertices with texture coordinates, to be drawn as a strip.
pub struct UVMappedSliceTriangleStrip<'a>(pub &'a [(Vector3, Vector2)]);

impl<'a> VertexAttributeArray for UVMappedSliceTriangleStrip<'a> {
    open spec fn spec_format() -> VertexFormat {
        VertexFormat::UVMappedStrip
    }

    open spec fn components(&self) -> Seq<Component> {
        uv_components(self.0@)
    }

    open spec fn spec_vertex_count(&self) -> i32 {
        self.0@.len() as i32
    }

    fn format() -> (format: VertexFormat) {
        VertexFormat::UVMappedStrip
    }

    fn as_slice(&self) -> (buffer: Vec<Component>) {
        flatten_uv(self.0)
    }

    fn vertex_count(&self) -> (count: i32) {
        #[verifier::truncate]
        (self.0.len() as i32)
    }
}

/// Vertices with texture coordinates, to be drawn as a list of triangles.
pub struct UVMappedSliceTriangleList<'a>(pub &'a [(Vector3, Vector2)]);

impl<'a> VertexAttributeArray for UVMappedSliceTriangleList<'a> {
    open spec fn spec_format() -> VertexFormat {
        VertexFormat::UVMappedList
    }

    open spec fn components(&self) -> Seq<Component> {
        uv_components(self.0@)
    }

    open spec fn spec_vertex_count(&self) -> i32 {
        self.0@.len() as i32
    }

    fn format() -> (format: VertexFormat) {
        VertexFormat::UVMappedList
    }

    fn as_slice(&self) -> (buffer: Vec<Component>) {
        flatten_uv(self.0)
    }

    fn vertex_count(&self) -> (count: i32) {
        #[verifier::truncate]
        (self.0.len() as i32)
    }
}

/// Vertices with colours, to be drawn as a strip.
pub struct ColoredSliceTriangleStrip<'a>(pub &'a [(Vector3, Vector4)]);

impl<'a> VertexAttributeArray for ColoredSliceTriangleStrip<'a> {
    open spec fn spec_format() -> VertexFormat {
        VertexFormat::ColoredStrip
    }

    open spec fn components(&self) -> Seq<Component> {
        colored_components(self.0@)
    }

    open spec fn spec_vertex_count(&self) -> i32 {
        self.0@.len() as i32
    }

    fn format() -> (format: VertexFormat) {
        VertexFormat::ColoredStrip
    }

    fn as_slice(&self) -> (buffer: Vec<Component>) {
        flatten_colored(self.0)
    }

    fn vertex_count(&self) -> (count: i32) {
        #[verifier::truncate]
        (self.0.len() as i32)
    }
}

/// Bare positions, three scalars each, to be drawn as a strip. Scalars left
/// over after the last whole position are uploaded but belong to no vertex.
pub struct TriangleStrip {
    pub vertices: Vec<Scalar>,
}

impl VertexAttributeArray for TriangleStrip {
    open spec fn spec_format() -> VertexFormat {
        VertexFormat::PlainStrip
    }

    open spec fn components(&self) -> Seq<Component> {
        plain_components(self.vertices@)
    }

    open spec fn spec_vertex_count(&self) -> i32 {
        (self.vertices@.len() / 3) as i32
    }

    fn format() -> (format: VertexFormat) {
        VertexFormat::PlainStrip
    }

    fn as_slice(&self) -> (buffer: Vec<Component>) {
        let mut buffer: Vec<Component> = Vec::new();
        let mut i: usize = 0;
        while i < self.vertices.len()
            invariant
                i <= self.vertices.len(),
                buffer@.len() == i,
                forall|j: int| 0 <= j < i ==> buffer@[j] == Component::Scalar(self.vertices@[j]),
            decreases self.vertices.len() - i,
        {
            buffer.push(Component::Scalar(self.vertices[i]));
            i += 1;
        }
        assert(buffer@ =~= plain_components(self.vertices@));
        buffer
    }

    fn vertex_count(&self) -> (count: i32) {
        #[verifier::truncate]
        ((self.vertices.len() / 3) as i32)
    }
}

/// What `transfer` tells the device: the vertex array and the buffer are
/// bound, the buffer is filled, and the vertex array is unbound.
pub open spec fn transfer_events(
    data: Seq<Component>,
    vao: VertexArrayHandle,
    buffer: BufferHandle,
) -> Seq<Event> {
    seq![
        Event::Told(Command::BindVertexArray(Some(vao))),
        Event::Told(Command::BindBuffer { target: ARRAY_BUFFER, buffer: Some(buffer) }),
        Event::Uploaded { target: ARRAY_BUFFER, data, usage: STATIC_DRAW },
        Event::Told(Command::BindVertexArray(None)),
    ]
}

/// Fills `buffer` with the data, replacing what it held, while `vao` is bound.
pub fn transfer<D: Device, T: VertexAttributeArray>(
    gl: &mut GL<D>,
    data: T,
    vao: &VertexArrayHandle,
    buffer: &BufferHandle,
)
    ensures
        final(gl).history() == old(gl).history() + transfer_events(
            data.components(),
            *vao,
            *buffer,
        ),
{
    gl.tell(Command::BindVertexArray(Some(*vao)));
    gl.tell(Command::BindBuffer { target: ARRAY_BUFFER, buffer: Some(*buffer) });
    let flat = data.as_slice();
    gl.buffer_data(ARRAY_BUFFER, &flat, STATIC_DRAW);
    gl.tell(Command::BindVertexArray(None));
    assert(gl.history() =~= old(gl).history() + transfer_events(data.components(), *vao, *buffer));
}

/// The layout of data of the given format and size in the given vertex array.
pub open spec fn layout_of(format: VertexFormat, vertex_count: i32, vao: VertexArrayHandle) -> Layout {
    Layout {
        draw_array_mode: format.spec_draw_array_mode(),
        position: format.spec_position(),
        color: format.spec_color(),
        texture_coordination: format.spec_texture_coordination(),
        vertex_count,
        vertex_array_object: vao,
    }
}

/// Geometry that owns its vertex array and its buffer on the device. It is
/// filled once, when it is made.
#[derive(Debug)]
pub struct Primitive {
    vao: VertexArrayHandle,
    vertex_count: i32,
    draw_array_mode: DrawArrayMode,
    position: Option<VertexAttribute>,
    color: Option<VertexAttribute>,
    texture_coordination: Option<VertexAttribute>,
    vertex_buffer: BufferHandle,
}

impl Primitive {
    /// The buffer that holds the vertices of this geometry.
    pub closed spec fn vertex_buffer(&self) -> BufferHandle {
        self.vertex_buffer
    }
}

/// The conversation of `Primitive::new` with a device that answers the two
/// creation queries with `vao` and `buffer`. It ends at the first answer
/// that names no object.
pub open spec fn primitive_creation_events(data: Seq<Component>, vao: Reply, buffer: Reply) -> Seq<
    Event,
> {
    let first = seq![Event::Asked(Query::CreateVertexArray, vao)];
    match vao.spec_object() {
        None => first,
        Some(v) => {
            let second = first.push(Event::Asked(Query::CreateBuffer, buffer));
            match buffer.spec_object() {
                None => second,
                Some(b) => second + transfer_events(
                    data,
                    VertexArrayHandle { id: v },
                    BufferHandle { id: b },
                ),
            }
        },
    }
}

/// Whether `result` is what `Primitive::new` owes for these two answers: the
/// geometry in the two objects, with the layout of the data, if both were
/// created, and else the error that names the one that was refused.
pub open spec fn primitive_creation_result(
    format: VertexFormat,
    vertex_count: i32,
    vao: Reply,
    buffer: Reply,
    result: Result<Primitive, Error>,
) -> bool {
    match result {
        Ok(primitive) => {
            &&& vao.spec_object() matches Some(v) && primitive.layout() == layout_of(
                format,
                vertex_count,
                VertexArrayHandle { id: v },
            )
            &&& buffer.spec_object() == Some(primitive.vertex_buffer().id)
        },
        Err(e) => {
            &&& e.spec_kind() == ErrorKind::ResourceCreation
            &&& if vao.spec_object() is None {
                e.text() == "createVertexArray failed."@
            } else {
                buffer.spec_object() is None && e.text() == "createBuffer failed."@
            }
        },
    }
}

/// What releasing a primitive tells the device.
pub open spec fn primitive_release_events(vao: VertexArrayHandle, buffer: BufferHandle) -> Seq<Event> {
    seq![Event::Told(Command::DeleteVertexArray(vao)), Event::Told(Command::DeleteBuffer(buffer))]
}

impl Primitive {
    /// Creates a vertex array and a buffer and fills the buffer with `data`.
    pub fn new<D: Device, T: VertexAttributeArray>(gl: &mut GL<D>, data: T) -> (result: Result<
        Primitive,
        Error,
    >)
        ensures
            exists|vao: Reply, buffer: Reply|
                {
                    &&& final(gl).history() == old(gl).history()
                        + #[trigger] primitive_creation_events(data.components(), vao, buffer)
                    &&& primitive_creation_result(
                        T::spec_format(),
                        data.spec_vertex_count(),
                        vao,
                        buffer,
                        result,
                    )
                },
    {
        let ghost before = gl.history();
        let ghost flat = data.components();
        let first = gl.ask(Query::CreateVertexArray);
        let vao = match first.object() {
            Some(id) => VertexArrayHandle { id },
            None => {
                let result = Err(Error::new(ErrorKind::ResourceCreation, "createVertexArray failed."));
                proof {
                    assert(gl.history() =~= before + primitive_creation_events(flat, first, first));
                    assert(primitive_creation_result(
                        T::spec_format(),
                        data.spec_vertex_count(),
                        first,
                        first,
                        result,
                    ));
                }
                return result;
            },
        };
        let second = gl.ask(Query::CreateBuffer);
        let buffer = match second.object() {
            Some(id) => BufferHandle { id },
            None => {
                let result = Err(Error::new(ErrorKind::ResourceCreation, "createBuffer failed."));
                proof {
                    assert(gl.history() =~= before + primitive_creation_events(flat, first, second));
                    assert(primitive_creation_result(
                        T::spec_format(),
                        data.spec_vertex_count(),
                        first,
                        second,
                        result,
                    ));
                }
                return result;
            },
        };
        let vertex_count = data.vertex_count();
        let format = T::format();
        transfer(gl, data, &vao, &buffer);
        let result = Ok(
            Primitive {
                vao,
                vertex_count,
                draw_array_mode: format.draw_array_mode(),
                position: format.position(),
                color: format.color(),
                texture_coordination: format.texture_coordination(),
                vertex_buffer: buffer,
            },
        );
        proof {
            assert(gl.history() =~= before + primitive_creation_events(flat, first, second));
            assert(primitive_creation_result(
                T::spec_format(),
                data.spec_vertex_count(),
                first,
                second,
                result,
            ));
        }
        result
    }

    /// Releases the vertex array and the buffer, each once. The geometry is
    /// gone afterwards.
    pub fn release<D: Device>(self, gl: &mut GL<D>)
        ensures
            final(gl).history() == old(gl).history() + primitive_release_events(
                self.layout().vertex_array_object,
                self.vertex_buffer(),
            ),
    {
        gl.tell(Command::DeleteVertexArray(self.vao));
        gl.tell(Command::DeleteBuffer(self.vertex_buffer));
        assert(gl.history() =~= old(gl).history() + primitive_release_events(
            self.layout().vertex_array_object,
            self.vertex_buffer(),
        ));
    }
}

impl Drawable for Primitive {
    closed spec fn layout(&self) -> Layout {
        Layout {
            draw_array_mode: self.draw_array_mode,
            position: self.position,
            color: self.color,
            texture_coordination: self.texture_coordination,
            vertex_count: self.vertex_count,
            vertex_array_object: self.vao,
        }
    }

    fn draw_array_mode(&self) -> (mode: DrawArrayMode) {
        self.draw_array_mode
    }

    fn position(&self) -> (attribute: Option<VertexAttribute>) {
        self.position
    }

    fn color(&self) -> (attribute: Option<VertexAttribute>) {
        self.color
    }

    fn texture_coordination(&self) -> (attribute: Option<VertexAttribute>) {
        self.texture_coordination
    }

    fn vertex_count(&self) -> (count: i32) {
        self.vertex_count
    }

    fn vertex_array_object(&self) -> (vao: VertexArrayHandle) {
        self.vao
    }
}

/// Geometry in a vertex array and a buffer that it borrows. Each transfer
/// overwrites what the buffer held, so one pair can serve many geometries,
/// one after the other.
pub struct EphemeralPrimitive<'a, T> {
    vao: &'a VertexArrayHandle,
    buffer: &'a BufferHandle,
    vertex_count: i32,
    phantom_data: PhantomData<T>,
}

impl<'a, T: VertexAttributeArray> EphemeralPrimitive<'a, T> {
    /// Fills the borrowed buffer with `data` and hands back the geometry
    /// that now sits in it.
    pub fn transfer<D: Device>(
        gl: &mut GL<D>,
        data: T,
        vao: &'a VertexArrayHandle,
        buffer: &'a BufferHandle,
    ) -> (primitive: Self)
        ensures
            final(gl).history() == old(gl).history() + transfer_events(
                data.components(),
                *vao,
                *buffer,
            ),
            primitive.layout() == layout_of(T::spec_format(), data.spec_vertex_count(), *vao),
    {
        let vertex_count = data.vertex_count();
        transfer(gl, data, vao, buffer);
        EphemeralPrimitive { vao, buffer, vertex_count, phantom_data: PhantomData }
    }
}

impl<'a, T: VertexAttributeArray> Drawable for EphemeralPrimitive<'a, T> {
    closed spec fn layout(&self) -> Layout {
        layout_of(T::spec_format(), self.vertex_count, *self.vao)
    }

    fn draw_array_mode(&self) -> (mode: DrawArrayMode) {
        T::format().draw_array_mode()
    }

    fn position(&self) -> (attribute: Option<VertexAttribute>) {
        T::format().position()
    }

    fn color(&self) -> (attribute: Option<VertexAttribute>) {
        T::format().color()
    }

    fn texture_coordination(&self) -> (attribute: Option<VertexAttribute>) {
        T::format().texture_coordination()
    }

    fn vertex_count(&self) -> (count: i32) {
        self.vertex_count
    }

    fn vertex_array_object(&self) -> (vao: VertexArrayHandle) {
        *self.vao
    }
}

} // verus!
