//! Sprites: textured rectangles in pixel coordinates, batched by texture.
use vstd::prelude::*;
use crate::error::Error;
use crate::error::ErrorKind;
use crate::gl::constants::CULL_FACE;
use crate::gl::constants::DEPTH_TEST;
use crate::gl::constants::TEXTURE0;
use crate::gl::constants::TEXTURE_2D;
use crate::gl::context::GL;
use crate::gl::device::BufferHandle;
use crate::gl::device::Command;
use crate::gl::device::Component;
use crate::gl::device::Device;
use crate::gl::device::Event;
use crate::gl::device::Query;
use crate::gl::device::Reply;
use crate::gl::device::TextureHandle;
use crate::gl::device::Transform;
use crate::gl::device::UniformName;
use crate::gl::device::VertexArrayHandle;
use crate::gl::primitive::attribute_start;
use crate::gl::primitive::interleaved;
use crate::gl::primitive::lemma_interleaved;
use crate::gl::primitive::layout_of;
use crate::gl::primitive::transfer_events;
use crate::gl::primitive::EphemeralPrimitive;
use crate::gl::primitive::VertexAttributeArray;
use crate::gl::primitive::VertexFormat;
use crate::gl::shader::draw_events;
use crate::gl::shader::enable_events;
use crate::gl::shader::shader_creation_events;
use crate::gl::shader::shader_creation_result;
use crate::gl::shader::shader_release_events;
use crate::gl::shader::uniform_events;
use crate::gl::shader::uniform_of;
use crate::gl::shader::CompileAnswers;
use crate::gl::shader::Layout;
use crate::gl::shader::Shader;
use crate::gl::shader::ShaderView;
use crate::gl::state::after;
use crate::gl::state::lemma_state_concat;
use crate::gl::state::lemma_still;
use crate::gl::state::still;
use crate::gl::state::State;
use crate::math::rectangle::Pixels;
use crate::math::rectangle::Rectangle;
use crate::math::rectangle::Size;
use crate::math::scalar::lemma_same_number;
use crate::math::scalar::Scalar;
use crate::math::vector::Vector4;

verus! {

/// One corner of a sprite: where it goes on the screen, in pixels from the
/// top-left corner, and which point of the texture it shows.
#[derive(Debug, Clone, Copy, PartialEq)]
pub struct SpriteVertex {
    pub x: Pixels,
    pub y: Pixels,
    pub u: Scalar,
    pub v: Scalar,
}

/// One request to draw a sprite: the texture, the part of it to show, and
/// the rectangle of the screen to fill.
pub struct SpriteRequest {
    pub texture: TextureHandle,
    pub source: Vector4,
    pub destination: Rectangle,
}

/// One draw call in the making: the vertices of a run of sprites that show
/// the same part of the same texture.
#[derive(Debug)]
pub struct DrawCommand {
    pub texture: TextureHandle,
    pub source: Vector4,
    pub vertices: Vec<SpriteVertex>,
}

/// A draw command as a specification value.
pub struct CommandView {
    pub texture: TextureHandle,
    pub source: Vector4,
    pub vertices: Seq<SpriteVertex>,
}

impl View for DrawCommand {
    type V = CommandView;

    open spec fn view(&self) -> CommandView {
        CommandView { texture: self.texture, source: self.source, vertices: self.vertices@ }
    }
}

/// The six vertices of one sprite: the triangle top-left, bottom-left,
/// top-right, then the triangle bottom-right, top-right, bottom-left.
///
/// `source` holds two corners of the texture, `(x, y)` and `(z, w)`. The
/// texture's second axis runs upward and the screen's downward, so the top
/// of the rectangle shows `w` and the bottom shows `y`.
pub open spec fn quad(source: Vector4, destination: Rectangle) -> Seq<SpriteVertex> {
    let left = Pixels { origin: destination.x, extent: 0 };
    let top = Pixels { origin: destination.y, extent: 0 };
    let right = Pixels { origin: destination.x, extent: destination.w };
    let bottom = Pixels { origin: destination.y, extent: destination.h };
    let top_left = SpriteVertex { x: left, y: top, u: source.x, v: source.w };
    let top_right = SpriteVertex { x: right, y: top, u: source.z, v: source.w };
    let bottom_left = SpriteVertex { x: left, y: bottom, u: source.x, v: source.y };
    let bottom_right = SpriteVertex { x: right, y: bottom, u: source.z, v: source.y };
    seq![top_left, bottom_left, top_right, bottom_right, top_right, bottom_left]
}

/// Whether a request joins the last command of a batch: the batch is not
/// empty, and its last command has the texture of the request and a source
/// of the same numbers.
pub open spec fn joins(batch: Seq<CommandView>, request: SpriteRequest) -> bool {
    &&& batch.len() > 0
    &&& batch.last().texture == request.texture
    &&& request.source.same_numbers(batch.last().source)
}

/// The batch after one more request: its vertices join the last command if
/// that shows the same part of the same texture, and else start a new one.
pub open spec fn added(batch: Seq<CommandView>, request: SpriteRequest) -> Seq<CommandView> {
    let vertices = quad(request.source, request.destination);
    if joins(batch, request) {
        batch.drop_last().push(
            CommandView { vertices: batch.last().vertices + vertices, ..batch.last() },
        )
    } else {
        batch.push(CommandView { texture: request.texture, source: request.source, vertices })
    }
}

/// The batch that a sequence of requests makes, taken in order.
pub open spec fn batched(requests: Seq<SpriteRequest>) -> Seq<CommandView>
    decreases requests.len(),
{
    if requests.len() == 0 {
        Seq::empty()
    } else {
        added(batched(requests.drop_last()), requests.last())
    }
}

/// All vertices of a batch, command after command.
pub open spec fn all_vertices(batch: Seq<CommandView>) -> Seq<SpriteVertex>
    decreases batch.len(),
{
    if batch.len() == 0 {
        Seq::empty()
    } else {
        all_vertices(batch.drop_last()) + batch.last().vertices
    }
}

/// The vertices of a sequence of requests, sprite after sprite.
pub open spec fn all_quads(requests: Seq<SpriteRequest>) -> Seq<SpriteVertex>
    decreases requests.len(),
{
    if requests.len() == 0 {
        Seq::empty()
    } else {
        all_quads(requests.drop_last()) + quad(requests.last().source, requests.last().destination)
    }
}

/// The winding of a sprite. For the rectangle with corner `(x, y)`, width `w`
/// and height `h`, the six vertices lie at `(x, y)`, `(x, y + h)`,
/// `(x + w, y)`, `(x + w, y + h)`, `(x + w, y)` and `(x, y + h)`, in that
/// order; a vertex at the top shows the texture at `source.w` and one at the
/// bottom at `source.y`, one at the left at `source.x` and one at the right
/// at `source.z`. A coordinate at the left or at the top is the corner's
/// alone; one at the right or at the bottom has the width or the height as
/// its second term.
pub proof fn lemma_quad_winding(source: Vector4, destination: Rectangle)
    ensures
        quad(source, destination).len() == 6,
        forall|i: int|
            0 <= i < 6 ==> {
                let vertex = #[trigger] quad(source, destination)[i];
                let at_left = i == 0 || i == 1 || i == 5;
                let at_top = i == 0 || i == 2 || i == 4;
                &&& vertex.x.origin == destination.x
                &&& vertex.y.origin == destination.y
                &&& vertex.x.extent == if at_left {
                    0i32
                } else {
                    destination.w
                }
                &&& vertex.y.extent == if at_top {
                    0i32
                } else {
                    destination.h
                }
                &&& vertex.x.sum() == destination.x + if at_left {
                    0int
                } else {
                    destination.w as int
                }
                &&& vertex.y.sum() == destination.y + if at_top {
                    0int
                } else {
                    destination.h as int
                }
                &&& vertex.u == if at_left {
                    source.x
                } else {
                    source.z
                }
                &&& vertex.v == if at_top {
                    source.w
                } else {
                    source.y
                }
            },
{
}

/// A request either joins the last command or starts a new one, and leaves
/// every earlier command as it was. A command that it joins keeps its
/// texture and its source and gains the six vertices at its end.
pub proof fn lemma_added(batch: Seq<CommandView>, request: SpriteRequest)
    ensures
        joins(batch, request) ==> {
            &&& added(batch, request).len() == batch.len()
            &&& added(batch, request).last().vertices == batch.last().vertices + quad(
                request.source,
                request.destination,
            )
            &&& added(batch, request).last().source == batch.last().source
        },
        !joins(batch, request) ==> {
            &&& added(batch, request).len() == batch.len() + 1
            &&& added(batch, request).last().vertices == quad(request.source, request.destination)
            &&& added(batch, request).last().source == request.source
        },
        added(batch, request).last().texture == request.texture,
        forall|i: int|
            0 <= i < added(batch, request).len() - 1 ==> #[trigger] added(batch, request)[i]
                == batch[i],
{
}

/// Two requests for the same part of the same texture, made one after the
/// other on an empty batch, give one command of twelve vertices: those of
/// the first sprite, then those of the second. A third request for another
/// texture gives a second command of six vertices. The source must be made
/// of numbers: what is not a number is not the same as itself.
pub proof fn lemma_same_run_merges(
    texture: TextureHandle,
    source: Vector4,
    first: Rectangle,
    second: Rectangle,
    other: SpriteRequest,
)
    requires
        source.all_numbers(),
        other.texture != texture,
    ensures
        ({
            let a = SpriteRequest { texture, source, destination: first };
            let b = SpriteRequest { texture, source, destination: second };
            let two = added(added(Seq::empty(), a), b);
            let three = added(two, other);
            &&& two == batched(seq![a, b])
            &&& two.len() == 1
            &&& two[0].vertices == quad(source, first) + quad(source, second)
            &&& two[0].vertices.len() == 12
            &&& three == batched(seq![a, b, other])
            &&& three.len() == 2
            &&& three[0] == two[0]
            &&& three[1].vertices.len() == 6
        }),
{
    let a = SpriteRequest { texture, source, destination: first };
    let b = SpriteRequest { texture, source, destination: second };
    let none = Seq::<CommandView>::empty();
    let one = added(none, a);
    let two = added(one, b);
    let three = added(two, other);
    lemma_added(none, a);
    assert(joins(one, b));
    lemma_added(one, b);
    lemma_added(two, other);
    assert(seq![a].drop_last() =~= Seq::<SpriteRequest>::empty());
    assert(seq![a, b].drop_last() =~= seq![a]);
    assert(seq![a, b, other].drop_last() =~= seq![a, b]);
    assert(batched(Seq::<SpriteRequest>::empty()) == none);
    assert(batched(seq![a]) == one);
    assert(batched(seq![a, b]) == two);
    assert(batched(seq![a, b, other]) == three);
}

/// A source with a component that is not a number never joins a command:
/// every request with it starts a command of its own.
pub proof fn lemma_no_number_never_merges(batch: Seq<CommandView>, request: SpriteRequest)
    requires
        !request.source.all_numbers(),
    ensures
        !joins(batch, request),
        added(batch, request).len() == batch.len() + 1,
{
}

/// Two sources that differ only in the sign of a zero are the same part of
/// the texture: a request with the one joins a command with the other.
pub proof fn lemma_zero_sign_merges(batch: Seq<CommandView>, request: SpriteRequest)
    requires
        batch.len() > 0,
        batch.last().texture == request.texture,
        batch.last().source.all_numbers(),
        request.source == (Vector4 { x: Scalar { bits: 0x8000_0000 }, ..batch.last().source }),
        batch.last().source.x.bits == 0,
    ensures
        joins(batch, request),
        added(batch, request).len() == batch.len(),
{
    let old = batch.last().source;
    lemma_same_number(old.x, request.source.x, old.x);
    lemma_same_number(old.y, old.y, old.y);
    lemma_same_number(old.z, old.z, old.z);
    lemma_same_number(old.w, old.w, old.w);
}

/// Batching keeps every vertex and the order of the requests: the vertices
/// of the batch, command after command, are the vertices of the sprites,
/// request after request. So there are six for each request.
pub proof fn lemma_batch_keeps_order(requests: Seq<SpriteRequest>)
    ensures
        all_vertices(batched(requests)) == all_quads(requests),
        all_quads(requests).len() == 6 * requests.len(),
    decreases requests.len(),
{
    if requests.len() > 0 {
        let earlier = requests.drop_last();
        let request = requests.last();
        let batch = batched(earlier);
        lemma_batch_keeps_order(earlier);
        lemma_added(batch, request);
        let next = added(batch, request);
        let vertices = quad(request.source, request.destination);
        if joins(batch, request) {
            assert(next.drop_last() =~= batch.drop_last());
            assert(all_vertices(next) =~= all_vertices(batch.drop_last()) + (batch.last().vertices
                + vertices));
            assert(all_vertices(batch) =~= all_vertices(batch.drop_last()) + batch.last().vertices);
            assert(all_vertices(next) =~= all_vertices(batch) + vertices);
        } else {
            assert(next.drop_last() =~= batch);
        }
    }
}

/// The runs of a batch cannot be longer: no two commands that follow one
/// another have the same texture and sources of the same numbers. And no command is empty:
/// each holds six vertices for every sprite in it.
pub proof fn lemma_runs_are_maximal(requests: Seq<SpriteRequest>)
    ensures
        forall|i: int|
            0 <= i < batched(requests).len() - 1 ==> {
                let here = #[trigger] batched(requests)[i];
                let next = batched(requests)[i + 1];
                here.texture != next.texture || !next.source.same_numbers(here.source)
            },
        forall|i: int|
            0 <= i < batched(requests).len() ==> {
                let here = #[trigger] batched(requests)[i];
                here.vertices.len() >= 6 && here.vertices.len() % 6 == 0
            },
        batched(requests).len() <= requests.len(),
        requests.len() > 0 ==> batched(requests).len() > 0,
    decreases requests.len(),
{
    if requests.len() > 0 {
        let earlier = requests.drop_last();
        let request = requests.last();
        let batch = batched(earlier);
        lemma_runs_are_maximal(earlier);
        lemma_added(batch, request);
        let next = added(batch, request);
        assert forall|i: int| 0 <= i < next.len() - 1 implies {
            let here = #[trigger] next[i];
            let after = next[i + 1];
            here.texture != after.texture || !after.source.same_numbers(here.source)
        } by {
            assert(next[i] == batch[i]);
            if i + 1 < next.len() - 1 {
                assert(next[i + 1] == batch[i + 1]);
            }
        }
        assert forall|i: int| 0 <= i < next.len() implies {
            let here = #[trigger] next[i];
            here.vertices.len() >= 6 && here.vertices.len() % 6 == 0
        } by {
            if i < next.len() - 1 {
                assert(next[i] == batch[i]);
            }
        }
    }
}


/// An accumulator of sprite requests. Requests that follow one another and
/// show the same part of the same texture share one draw command.
#[derive(Debug)]
pub struct SpriteBatch {
    commands: Vec<DrawCommand>,
}

impl View for SpriteBatch {
    type V = Seq<CommandView>;

    closed spec fn view(&self) -> Seq<CommandView> {
        self.commands@.map_values(|c: DrawCommand| c@)
    }
}

impl SpriteBatch {
    /// An empty batch.
    pub fn new() -> (batch: SpriteBatch)
        ensures
            batch@ == Seq::<CommandView>::empty(),
    {
        let batch = SpriteBatch { commands: Vec::new() };
        assert(batch@ =~= Seq::<CommandView>::empty());
        batch
    }

    /// Appends the six vertices of one sprite to `v`.
    fn push_vertices(v: &mut Vec<SpriteVertex>, source: Vector4, destination: Rectangle)
        ensures
            final(v)@ == old(v)@ + quad(source, destination),
    {
        let left = Pixels { origin: destination.x, extent: 0 };
        let top = Pixels { origin: destination.y, extent: 0 };
        let right = Pixels { origin: destination.x, extent: destination.w };
        let bottom = Pixels { origin: destination.y, extent: destination.h };
        let top_left = SpriteVertex { x: left, y: top, u: source.x, v: source.w };
        let top_right = SpriteVertex { x: right, y: top, u: source.z, v: source.w };
        let bottom_left = SpriteVertex { x: left, y: bottom, u: source.x, v: source.y };
        let bottom_right = SpriteVertex { x: right, y: bottom, u: source.z, v: source.y };
        v.push(top_left);
        v.push(bottom_left);
        v.push(top_right);
        v.push(bottom_right);
        v.push(top_right);
        v.push(bottom_left);
        assert(v@ =~= old(v)@ + quad(source, destination));
    }

    /// Adds a sprite that shows the part `source` of `texture` in the
    /// rectangle `destination` of the screen. Sprites added later are drawn
    /// over those added earlier.
    pub fn add(&mut self, texture: &TextureHandle, source: Vector4, destination: Rectangle)
        ensures
            final(self)@ == added(
                old(self)@,
                SpriteRequest { texture: *texture, source, destination },
            ),
    {
        let ghost request = SpriteRequest { texture: *texture, source, destination };
        let count = self.commands.len();
        if count > 0 {
            let last = &self.commands[count - 1];
            if *texture == last.texture && source == last.source {
                assert(joins(old(self)@, request));
                let mut run = self.commands.pop().unwrap();
                Self::push_vertices(&mut run.vertices, source, destination);
                self.commands.push(run);
                assert(self@ =~= added(old(self)@, request));
                return ;
            }
        }
        let mut v: Vec<SpriteVertex> = Vec::new();
        Self::push_vertices(&mut v, source, destination);
        self.commands.push(DrawCommand { texture: *texture, source, vertices: v });
        assert(self@ =~= added(old(self)@, request));
    }

    /// The draw commands of the batch, in the order in which they are drawn.
    pub fn commands(&self) -> (commands: &Vec<DrawCommand>)
        ensures
            commands@.map_values(|c: DrawCommand| c@) == self@,
    {
        &self.commands
    }
}

/// The components of one sprite vertex: its place in pixels, a depth of
/// zero, and its texture coordinate.
pub open spec fn sprite_vertex(vertex: SpriteVertex) -> Seq<Component> {
    seq![
        Component::Pixels(vertex.x),
        Component::Pixels(vertex.y),
        Component::Pixels(Pixels { origin: 0, extent: 0 }),
        Component::Scalar(vertex.u),
        Component::Scalar(vertex.v),
    ]
}

/// The buffer of a sequence of sprite vertices.
pub open spec fn sprite_components(vertices: Seq<SpriteVertex>) -> Seq<Component> {
    interleaved(vertices.map_values(|v: SpriteVertex| sprite_vertex(v)), 5)
}

/// The layout of sprite vertices is that of a list of vertices with texture
/// coordinates. The buffer holds five components for each vertex; the
/// position attribute of vertex `i` starts at its place in pixels, followed
/// by a depth of zero, and the texture coordinate attribute at its two
/// coordinates.
pub proof fn lemma_sprite_layout(vertices: Seq<SpriteVertex>, i: int)
    requires
        0 <= i < vertices.len(),
    ensures
        sprite_components(vertices).len() == 5 * vertices.len(),
        ({
            let buffer = sprite_components(vertices);
            let p = attribute_start(VertexFormat::UVMappedList.spec_position().unwrap(), 5, i);
            let t = attribute_start(
                VertexFormat::UVMappedList.spec_texture_coordination().unwrap(),
                5,
                i,
            );
            &&& 0 <= p && p + 3 == t && t + 2 <= buffer.len()
            &&& buffer[p] == Component::Pixels(vertices[i].x)
            &&& buffer[p + 1] == Component::Pixels(vertices[i].y)
            &&& buffer[p + 2] == Component::Pixels(Pixels { origin: 0, extent: 0 })
            &&& buffer[t] == Component::Scalar(vertices[i].u)
            &&& buffer[t + 1] == Component::Scalar(vertices[i].v)
        }),
{
    let each = vertices.map_values(|v: SpriteVertex| sprite_vertex(v));
    lemma_interleaved(each, 5);
    let buffer = sprite_components(vertices);
    assert((i * 20 + 0) / 4 == i * 5);
    assert((i * 20 + 12) / 4 == i * 5 + 3);
    assert(buffer[i * 5 + 0] == each[i][0]);
    assert(buffer[i * 5 + 1] == each[i][1]);
    assert(buffer[i * 5 + 2] == each[i][2]);
    assert(buffer[i * 5 + 3] == each[i][3]);
    assert(buffer[i * 5 + 4] == each[i][4]);
}

/// Sprite vertices, to be drawn as a list of triangles.
pub struct SpriteTriangleList<'a>(pub &'a [SpriteVertex]);

impl<'a> VertexAttributeArray for SpriteTriangleList<'a> {
    open spec fn spec_format() -> VertexFormat {
        VertexFormat::UVMappedList
    }

    open spec fn components(&self) -> Seq<Component> {
        sprite_components(self.0@)
    }

    open spec fn spec_vertex_count(&self) -> i32 {
        self.0@.len() as i32
    }

    fn format() -> (format: VertexFormat) {
        VertexFormat::UVMappedList
    }

    fn as_slice(&self) -> (buffer: Vec<Component>) {
        let mut buffer: Vec<Component> = Vec::new();
        let mut i: usize = 0;
        while i < self.0.len()
            invariant
                i <= self.0.len(),
                buffer@.len() == 5 * i,
                forall|j: int|
                    0 <= j < 5 * i ==> buffer@[j] == sprite_vertex(self.0@[j / 5])[j % 5],
            decreases self.0.len() - i,
        {
            let vertex = self.0[i];
            buffer.push(Component::Pixels(vertex.x));
            buffer.push(Component::Pixels(vertex.y));
            buffer.push(Component::Pixels(Pixels { origin: 0, extent: 0 }));
            buffer.push(Component::Scalar(vertex.u));
            buffer.push(Component::Scalar(vertex.v));
            i += 1;
        }
        assert(buffer@ =~= sprite_components(self.0@));
        buffer
    }

    fn vertex_count(&self) -> (count: i32) {
        #[verifier::truncate]
        (self.0.len() as i32)
    }
}

/// The vertex stage of the sprite program.
pub const SPRITE_VERTEX_SHADER: &'static str =
    "#version 300 es\nin vec4 position;\nin vec2 textureCoord;\nuniform mat4 mvp;\nout vec2 vTextureCoord;\nvoid main() {\n    gl_Position = mvp * vec4(position.xy, 0.0, 1.0);\n    vTextureCoord = textureCoord;\n}\n";

/// The fragment stage of the sprite program.
pub const SPRITE_FRAGMENT_SHADER: &'static str =
    "#version 300 es\nprecision mediump float;\nin vec2 vTextureCoord;\nuniform sampler2D texture0;\nout vec4 outColor;\nvoid main() {\n    outColor = texture(texture0, vTextureCoord);\n}\n";

/// The sprite renderer: a program that samples one texture, and one vertex
/// array and buffer through which every command of a batch passes in turn.
#[derive(Debug)]
pub struct Sprite {
    shader: Shader,
    vao: VertexArrayHandle,
    vbuf: BufferHandle,
    screen_size: Size,
}

/// A sprite renderer as a specification value.
pub struct SpriteView {
    pub shader: ShaderView,
    pub vao: VertexArrayHandle,
    pub vbuf: BufferHandle,
    pub screen_size: Size,
}

impl View for Sprite {
    type V = SpriteView;

    closed spec fn view(&self) -> SpriteView {
        SpriteView {
            shader: self.shader@,
            vao: self.vao,
            vbuf: self.vbuf,
            screen_size: self.screen_size,
        }
    }
}

/// The answers of the device while a sprite renderer is made: those of the
/// making of its program, and those to the creation of its buffer and of
/// its vertex array.
pub struct SpriteAnswers {
    pub program: Reply,
    pub vertex: CompileAnswers,
    pub fragment: CompileAnswers,
    pub buffer: Reply,
    pub vao: Reply,
}

/// The program that these answers yield, if its making succeeded.
pub open spec fn program_of(answers: SpriteAnswers) -> Option<ShaderView> {
    match (
        answers.program.spec_object(),
        crate::gl::shader::stage_of(answers.vertex),
        crate::gl::shader::stage_of(answers.fragment),
    ) {
        (Some(id), Some(vertex_shader), Some(fragment_shader)) => Some(
            ShaderView {
                program: crate::gl::device::ProgramHandle { id },
                vertex_shader,
                fragment_shader,
            },
        ),
        _ => None,
    }
}

/// The conversation of `Sprite::new`: the program is made, then the buffer
/// is created, then the vertex array. It ends at the first step that fails;
/// if that is the buffer or the vertex array, the program that was made is
/// released first.
pub open spec fn sprite_creation_events(answers: SpriteAnswers) -> Seq<Event> {
    let first = shader_creation_events(
        SPRITE_VERTEX_SHADER@,
        SPRITE_FRAGMENT_SHADER@,
        answers.program,
        answers.vertex,
        answers.fragment,
    );
    match program_of(answers) {
        None => first,
        Some(shader) => {
            let second = first.push(Event::Asked(Query::CreateBuffer, answers.buffer));
            match answers.buffer.spec_object() {
                None => second + shader_release_events(shader),
                Some(_) => {
                    let third = second.push(Event::Asked(Query::CreateVertexArray, answers.vao));
                    match answers.vao.spec_object() {
                        None => third + shader_release_events(shader),
                        Some(_) => third,
                    }
                },
            }
        },
    }
}

/// Whether `result` is what `Sprite::new` owes for these answers: the
/// renderer made of the program, the buffer and the vertex array if all were
/// made, and else the error of the first step that failed.
pub open spec fn sprite_creation_result(
    screen_size: Size,
    answers: SpriteAnswers,
    result: Result<Sprite, Error>,
) -> bool {
    match result {
        Ok(sprite) => {
            &&& program_of(answers) == Some(sprite@.shader)
            &&& answers.buffer.spec_object() == Some(sprite@.vbuf.id)
            &&& answers.vao.spec_object() == Some(sprite@.vao.id)
            &&& sprite@.screen_size == screen_size
        },
        Err(e) => {
            if program_of(answers) is None {
                shader_creation_result(
                    answers.program,
                    answers.vertex,
                    answers.fragment,
                    Err::<Shader, Error>(e),
                )
            } else if answers.buffer.spec_object() is None {
                e.spec_kind() == ErrorKind::ResourceCreation && e.text() == "glCreateBuffer failed"@
            } else {
                &&& answers.vao.spec_object() is None
                &&& e.spec_kind() == ErrorKind::ResourceCreation
                &&& e.text() == "glCreateVertexArray failed"@
            }
        },
    }
}

/// The exact value of a component as a fraction of whole numbers, numerator
/// first, where whole numbers can state it: for a coordinate in pixels, for
/// a quotient whose denominator is not zero, and for the scalars zero, one
/// and minus one.
pub open spec fn exact(component: Component) -> Option<(int, int)> {
    match component {
        Component::Pixels(pixels) => Some((pixels.sum(), 1)),
        Component::Quotient { numerator, denominator } => if denominator != 0 {
            Some((numerator as int, denominator as int))
        } else {
            None
        },
        Component::Scalar(scalar) => if scalar == Scalar::spec_zero() {
            Some((0, 1))
        } else if scalar == Scalar::spec_one() {
            Some((1, 1))
        } else if scalar == Scalar::spec_negative_one() {
            Some((-1, 1))
        } else {
            None
        },
    }
}

/// Where a pixel coordinate goes along one axis under a scale and a shift:
/// the exact value of `scale * pixel + shift`, as a fraction.
pub open spec fn clip(scale: Component, shift: Component, pixel: int) -> Option<(int, int)> {
    match (exact(scale), exact(shift)) {
        (Some(a), Some(b)) => Some((a.0 * pixel * b.1 + b.0 * a.1, a.1 * b.1)),
        _ => None,
    }
}

/// The normalizer takes the corners of the screen to the corners of clip
/// space. In exact arithmetic, for a screen of width `w` and height `h`,
/// neither of them zero: the left edge goes to `-w / w`, which is minus one,
/// and the right edge to `w / w`, which is one; the top edge goes to `h / h`
/// and the bottom edge to `-h / h`. Neither axis takes anything from the
/// other or from the depth, the depth comes out as zero, and the fourth row
/// leaves the weight of a point at one.
pub proof fn lemma_normalizer_corners(size: Size)
    requires
        size.w != 0,
        size.h != 0,
    ensures
        ({
            let t = Sprite::spec_normalizer(size);
            let zero = Some((0int, 1int));
            &&& clip(t.m11, t.m14, 0) == Some((-size.w, size.w as int))
            &&& clip(t.m11, t.m14, size.w as int) == Some((size.w as int, size.w as int))
            &&& clip(t.m22, t.m24, 0) == Some((size.h as int, size.h as int))
            &&& clip(t.m22, t.m24, size.h as int) == Some((-size.h, size.h as int))
            &&& exact(t.m12) == zero && exact(t.m13) == zero
            &&& exact(t.m21) == zero && exact(t.m23) == zero
            &&& exact(t.m31) == zero && exact(t.m32) == zero && exact(t.m33) == zero && exact(
                t.m34,
            ) == zero
            &&& exact(t.m41) == zero && exact(t.m42) == zero && exact(t.m43) == zero
            &&& exact(t.m44) == Some((1int, 1int))
        }),
{
}

/// The answers of the device while one command of a batch is drawn: where
/// the program has its position and its texture coordinate, and which
/// uniforms it has for the transform and for the sampler.
pub struct CommandAnswers {
    pub position: Reply,
    pub texture_coordination: Reply,
    pub transform: Reply,
    pub sampler: Reply,
}

/// The layout of a command's vertices once they sit in the renderer's buffer.
pub open spec fn command_layout(sprite: SpriteView, command: CommandView) -> Layout {
    layout_of(VertexFormat::UVMappedList, command.vertices.len() as i32, sprite.vao)
}

/// The conversation that draws one command: its vertices are uploaded to
/// the renderer's buffer and bound to the program's inputs; the first
/// texture unit is made active and the command's texture is bound to it; the
/// program is enabled, given the transform and the texture unit zero, draws,
/// and is disabled; the texture is unbound.
pub open spec fn command_events(
    sprite: SpriteView,
    command: CommandView,
    transform: Transform,
    answers: CommandAnswers,
) -> Seq<Event> {
    let layout = command_layout(sprite, command);
    transfer_events(sprite_components(command.vertices), sprite.vao, sprite.vbuf) + enable_events(
        sprite.shader.program,
        layout,
        answers.position,
        answers.position,
        answers.texture_coordination,
    ) + seq![
        Event::Told(Command::ActiveTexture(TEXTURE0)),
        Event::Told(Command::BindTexture { target: TEXTURE_2D, texture: Some(command.texture) }),
        Event::Told(Command::UseProgram(Some(sprite.shader.program))),
    ] + uniform_events(
        sprite.shader.program,
        UniformName::Mvp,
        answers.transform,
        Command::UniformMatrix4fv {
            location: uniform_of(answers.transform),
            transpose: true,
            matrix: transform,
        },
    ) + uniform_events(
        sprite.shader.program,
        UniformName::Texture0,
        answers.sampler,
        Command::Uniform1i(uniform_of(answers.sampler), 0),
    ) + draw_events(layout) + seq![
        Event::Told(Command::UseProgram(None)),
        Event::Told(Command::BindTexture { target: TEXTURE_2D, texture: None }),
    ]
}

/// The conversations that draw the first `count` commands of a batch, one
/// after the other.
pub open spec fn commands_events(
    sprite: SpriteView,
    batch: Seq<CommandView>,
    transform: Transform,
    answers: Seq<CommandAnswers>,
    count: int,
) -> Seq<Event>
    decreases count,
{
    if count <= 0 {
        Seq::empty()
    } else {
        commands_events(sprite, batch, transform, answers, count - 1) + command_events(
            sprite,
            batch[count - 1],
            transform,
            answers[count - 1],
        )
    }
}

/// The conversation of `Sprite::draw`: depth testing and face culling are
/// switched off, then the commands are drawn in the order of the batch.
pub open spec fn batch_events(
    sprite: SpriteView,
    batch: Seq<CommandView>,
    transform: Transform,
    answers: Seq<CommandAnswers>,
) -> Seq<Event> {
    seq![Event::Told(Command::Disable(DEPTH_TEST)), Event::Told(Command::Disable(CULL_FACE))]
        + commands_events(sprite, batch, transform, answers, batch.len() as int)
}

/// What releasing a sprite renderer tells the device.
pub open spec fn sprite_release_events(sprite: SpriteView) -> Seq<Event> {
    shader_release_events(sprite.shader) + seq![
        Event::Told(Command::DeleteVertexArray(sprite.vao)),
        Event::Told(Command::DeleteBuffer(sprite.vbuf)),
    ]
}

impl Sprite {
    /// Makes the sprite program, and the buffer and vertex array that
    /// batches are drawn through, for a screen of the given size. If the
    /// buffer or the vertex array is refused, the program is released again.
    pub fn new<D: Device>(gl: &mut GL<D>, screen_size: Size) -> (result: Result<Sprite, Error>)
        ensures
            exists|answers: SpriteAnswers|
                {
                    &&& final(gl).history() == old(gl).history() + #[trigger] sprite_creation_events(
                        answers,
                    )
                    &&& sprite_creation_result(screen_size, answers, result)
                },
    {
        let ghost before = gl.history();
        let made = Shader::new(gl, SPRITE_VERTEX_SHADER, SPRITE_FRAGMENT_SHADER);
        let ghost (program, vertex, fragment) = choose|
            program: Reply,
            vertex: CompileAnswers,
            fragment: CompileAnswers,
        |
            gl.history() == before + #[trigger] shader_creation_events(
                SPRITE_VERTEX_SHADER@,
                SPRITE_FRAGMENT_SHADER@,
                program,
                vertex,
                fragment,
            ) && shader_creation_result(program, vertex, fragment, made);
        let shader = match made {
            Ok(shader) => shader,
            Err(e) => {
                let result = Err(e);
                proof {
                    let answers = SpriteAnswers {
                        program,
                        vertex,
                        fragment,
                        buffer: program,
                        vao: program,
                    };
                    assert(shader_creation_result(program, vertex, fragment, made));
                    assert(gl.history() =~= before + sprite_creation_events(answers));
                    assert(sprite_creation_result(screen_size, answers, result));
                }
                return result;
            },
        };
        let second = gl.ask(Query::CreateBuffer);
        let vbuf = match second.object() {
            Some(id) => BufferHandle { id },
            None => {
                shader.release(gl);
                let result = Err(Error::new(ErrorKind::ResourceCreation, "glCreateBuffer failed"));
                proof {
                    let answers = SpriteAnswers {
                        program,
                        vertex,
                        fragment,
                        buffer: second,
                        vao: second,
                    };
                    assert(gl.history() =~= before + sprite_creation_events(answers));
                    assert(sprite_creation_result(screen_size, answers, result));
                }
                return result;
            },
        };
        let third = gl.ask(Query::CreateVertexArray);
        let vao = match third.object() {
            Some(id) => VertexArrayHandle { id },
            None => {
                shader.release(gl);
                let result = Err(
                    Error::new(ErrorKind::ResourceCreation, "glCreateVertexArray failed"),
                );
                proof {
                    let answers = SpriteAnswers {
                        program,
                        vertex,
                        fragment,
                        buffer: second,
                        vao: third,
                    };
                    assert(gl.history() =~= before + sprite_creation_events(answers));
                    assert(sprite_creation_result(screen_size, answers, result));
                }
                return result;
            },
        };
        let result = Ok(Sprite { shader, vao, vbuf, screen_size });
        proof {
            let answers = SpriteAnswers { program, vertex, fragment, buffer: second, vao: third };
            assert(gl.history() =~= before + sprite_creation_events(answers));
            assert(sprite_creation_result(screen_size, answers, result));
        }
        result
    }

    /// The size of the screen that this renderer was made for.
    pub fn screen_size(&self) -> (size: Size)
        ensures
            size == self@.screen_size,
    {
        self.screen_size
    }

    /// Draws one command of a batch.
    fn draw_command<D: Device>(&self, gl: &mut GL<D>, command: &DrawCommand, transform: &Transform) -> (answers:
        Ghost<CommandAnswers>)
        ensures
            final(gl).history() == old(gl).history() + command_events(
                self@,
                command@,
                *transform,
                answers@,
            ),
    {
        let ghost before = gl.history();
        let ghost layout = command_layout(self@, command@);
        let verts = SpriteTriangleList(command.vertices.as_slice());
        let obj = EphemeralPrimitive::transfer(gl, verts, &self.vao, &self.vbuf);
        let ghost h1 = gl.history();
        self.shader.enable_vertex_attribute(gl, &obj);
        let ghost (position, color, texture_coordination) = choose|
            position: Reply,
            color: Reply,
            texture_coordination: Reply,
        |
            gl.history() == h1 + #[trigger] enable_events(
                self@.shader.program,
                layout,
                position,
                color,
                texture_coordination,
            );
        gl.tell(Command::ActiveTexture(TEXTURE0));
        gl.tell(Command::BindTexture { target: TEXTURE_2D, texture: Some(command.texture) });
        self.shader.enable(gl);
        let ghost h2 = gl.history();
        self.shader.set_uniform_transform(gl, transform);
        let ghost mvp = choose|answer: Reply|
            gl.history() == h2 + #[trigger] uniform_events(
                self@.shader.program,
                UniformName::Mvp,
                answer,
                Command::UniformMatrix4fv {
                    location: uniform_of(answer),
                    transpose: true,
                    matrix: *transform,
                },
            );
        let ghost h3 = gl.history();
        self.shader.set_uniform_texture(gl, 0);
        let ghost sampler = choose|answer: Reply|
            gl.history() == h3 + #[trigger] uniform_events(
                self@.shader.program,
                UniformName::Texture0,
                answer,
                Command::Uniform1i(uniform_of(answer), 0),
            );
        proof {
            let program = self@.shader.program;
            let first = uniform_events(
                program,
                UniformName::Mvp,
                mvp,
                Command::UniformMatrix4fv {
                    location: uniform_of(mvp),
                    transpose: true,
                    matrix: *transform,
                },
            );
            let second = uniform_events(
                program,
                UniformName::Texture0,
                sampler,
                Command::Uniform1i(uniform_of(sampler), 0),
            );
            assert(still(first));
            assert(still(second));
            lemma_state_concat(State::unbound(), h2, first);
            lemma_still(after(State::unbound(), h2), first);
            lemma_state_concat(State::unbound(), h3, second);
            lemma_still(after(State::unbound(), h3), second);
        }
        self.shader.draw(gl, &obj);
        self.shader.disable(gl);
        gl.tell(Command::BindTexture { target: TEXTURE_2D, texture: None });
        let ghost answers = CommandAnswers {
            position,
            texture_coordination,
            transform: mvp,
            sampler,
        };
        proof {
            assert(enable_events(
                self@.shader.program,
                layout,
                position,
                color,
                texture_coordination,
            ) =~= enable_events(
                self@.shader.program,
                layout,
                position,
                position,
                texture_coordination,
            ));
            assert(gl.history() =~= before + command_events(self@, command@, *transform, answers));
        }
        Ghost(answers)
    }

    /// The transform that takes pixels, counted from the top-left corner of a
    /// screen of the given size, to clip space: it scales by two over the
    /// width and by minus two over the height, and moves by minus one and by
    /// one.
    pub open spec fn spec_normalizer(size: Size) -> Transform {
        let o = Component::Scalar(Scalar::spec_zero());
        let i = Component::Scalar(Scalar::spec_one());
        let n = Component::Scalar(Scalar::spec_negative_one());
        Transform {
            m11: Component::Quotient { numerator: 2, denominator: size.w },
            m12: o,
            m13: o,
            m14: n,
            m21: o,
            m22: Component::Quotient { numerator: -2i32, denominator: size.h },
            m23: o,
            m24: i,
            m31: o,
            m32: o,
            m33: o,
            m34: o,
            m41: o,
            m42: o,
            m43: o,
            m44: i,
        }
    }

    /// The transform that takes the pixels of a screen of the given size to
    /// clip space. The top-left corner goes to (-1, 1) and the corner
    /// opposite to (1, -1).
    #[verifier::when_used_as_spec(spec_normalizer)]
    pub fn normalizer(size: Size) -> (transform: Transform)
        ensures
            transform == Self::spec_normalizer(size),
    {
        let o = Component::Scalar(Scalar::zero());
        let i = Component::Scalar(Scalar::one());
        let n = Component::Scalar(Scalar::negative_one());
        Transform {
            m11: Component::Quotient { numerator: 2, denominator: size.w },
            m12: o,
            m13: o,
            m14: n,
            m21: o,
            m22: Component::Quotient { numerator: -2i32, denominator: size.h },
            m23: o,
            m24: i,
            m31: o,
            m32: o,
            m33: o,
            m34: o,
            m41: o,
            m42: o,
            m43: o,
            m44: i,
        }
    }

    /// Draws the batch and uses it up. The transform of the program is the
    /// normalizer of the screen that the renderer was made for. Depth testing
    /// and face culling stay off afterwards.
    pub fn draw<D: Device>(&self, gl: &mut GL<D>, batch: SpriteBatch)
        ensures
            exists|answers: Seq<CommandAnswers>|
                {
                    &&& answers.len() == batch@.len()
                    &&& final(gl).history() == old(gl).history() + #[trigger] batch_events(
                        self@,
                        batch@,
                        Self::spec_normalizer(self@.screen_size),
                        answers,
                    )
                },
    {
        let transform = &Self::normalizer(self.screen_size);
        let ghost before = gl.history();
        gl.tell(Command::Disable(DEPTH_TEST));
        gl.tell(Command::Disable(CULL_FACE));
        let ghost start = gl.history();
        let ghost mut answers: Seq<CommandAnswers> = Seq::empty();
        let commands = batch.commands();
        let mut i: usize = 0;
        while i < commands.len()
            invariant
                i <= commands.len(),
                commands@.map_values(|c: DrawCommand| c@) == batch@,
                answers.len() == i,
                gl.history() == start + commands_events(
                    self@,
                    batch@,
                    *transform,
                    answers,
                    i as int,
                ),
            decreases commands.len() - i,
        {
            let ghost earlier = answers;
            let ghost so_far = gl.history();
            let answer = self.draw_command(gl, &commands[i], transform);
            proof {
                answers = earlier.push(answer@);
                assert(batch@[i as int] == commands@[i as int]@);
                lemma_commands_events_prefix(
                    self@,
                    batch@,
                    *transform,
                    earlier,
                    answers,
                    i as int,
                );
                assert(gl.history() =~= start + commands_events(
                    self@,
                    batch@,
                    *transform,
                    answers,
                    i + 1,
                ));
            }
            i += 1;
        }
        proof {
            assert(batch@.len() == commands@.len());
            assert(gl.history() =~= before + batch_events(self@, batch@, *transform, answers));
        }
    }

    /// Releases the program, the vertex array and the buffer, each once. The
    /// renderer is gone afterwards.
    pub fn release<D: Device>(self, gl: &mut GL<D>)
        ensures
            final(gl).history() == old(gl).history() + sprite_release_events(self@),
    {
        let ghost view = self@;
        let Sprite { shader, vao, vbuf, screen_size: _ } = self;
        shader.release(gl);
        gl.tell(Command::DeleteVertexArray(vao));
        gl.tell(Command::DeleteBuffer(vbuf));
        assert(gl.history() =~= old(gl).history() + sprite_release_events(view));
    }
}

/// The conversation for the first `count` commands depends on the first
/// `count` answers only.
proof fn lemma_commands_events_prefix(
    sprite: SpriteView,
    batch: Seq<CommandView>,
    transform: Transform,
    shorter: Seq<CommandAnswers>,
    longer: Seq<CommandAnswers>,
    count: int,
)
    requires
        0 <= count <= shorter.len() <= longer.len(),
        forall|i: int| 0 <= i < count ==> shorter[i] == longer[i],
    ensures
        commands_events(sprite, batch, transform, shorter, count) == commands_events(
            sprite,
            batch,
            transform,
            longer,
            count,
        ),
    decreases count,
{
    if count > 0 {
        lemma_commands_events_prefix(sprite, batch, transform, shorter, longer, count - 1);
    }
}

} // verus!
