//! Shader programs, and what a program needs to know of the geometry it draws.
use vstd::prelude::*;
use vstd::std_specs::convert::FromSpecImpl;
use crate::error::Error;
use crate::error::ErrorKind;
use crate::error::ShaderStage;
use crate::gl::constants::COMPILE_STATUS;
use crate::gl::constants::FLOAT;
use crate::gl::constants::FRAGMENT_SHADER;
use crate::gl::constants::TRIANGLES;
use crate::gl::constants::TRIANGLE_STRIP;
use crate::gl::constants::VERTEX_SHADER;
use crate::gl::context::GL;
use crate::gl::device::AttributeName;
use crate::gl::device::Command;
use crate::gl::device::Device;
use crate::gl::device::Event;
use crate::gl::device::ProgramHandle;
use crate::gl::device::Query;
use crate::gl::device::Reply;
use crate::gl::device::ShaderHandle;
use crate::gl::device::Transform;
use crate::gl::device::UniformHandle;
use crate::gl::device::UniformName;
use crate::gl::device::VertexArrayHandle;
use crate::gl::state::lemma_state_push;
use crate::gl::state::State;
use crate::math::matrix::Matrix4;
use crate::math::vector::Vector4;

verus! {

/// Where one attribute sits in a vertex buffer: the byte at which it starts
/// in each vertex, the number of its components, and the bytes from one
/// vertex to the next (zero where the attribute is tightly packed).
#[derive(Debug, Clone, Copy, PartialEq, Eq, Structural)]
pub struct VertexAttribute {
    pub offset: usize,
    pub size: usize,
    pub stride: usize,
}

/// How the device joins vertices into triangles.
#[derive(Debug, Clone, Copy, PartialEq, Eq, Structural)]
pub enum DrawArrayMode {
    TriangleStrip,
    TriangleList,
}

impl DrawArrayMode {
    /// The device's number for the mode.
    pub open spec fn number(self) -> u32 {
        match self {
            DrawArrayMode::TriangleStrip => TRIANGLE_STRIP,
            DrawArrayMode::TriangleList => TRIANGLES,
        }
    }
}

impl From<DrawArrayMode> for u32 {
    /// The device's number for the mode.
    fn from(val: DrawArrayMode) -> (mode: u32) {
        match val {
            DrawArrayMode::TriangleStrip => TRIANGLE_STRIP,
            DrawArrayMode::TriangleList => TRIANGLES,
        }
    }
}

impl FromSpecImpl<DrawArrayMode> for u32 {
    open spec fn obeys_from_spec() -> bool {
        true
    }

    open spec fn from_spec(val: DrawArrayMode) -> u32 {
        val.number()
    }
}

impl ShaderStage {
    /// The device's number for the stage.
    pub open spec fn spec_kind(self) -> u32 {
        match self {
            ShaderStage::Vertex => VERTEX_SHADER,
            ShaderStage::Fragment => FRAGMENT_SHADER,
        }
    }

    /// The device's number for the stage.
    #[verifier::when_used_as_spec(spec_kind)]
    pub fn kind(self) -> (kind: u32)
        ensures
            kind == self.spec_kind(),
    {
        match self {
            ShaderStage::Vertex => VERTEX_SHADER,
            ShaderStage::Fragment => FRAGMENT_SHADER,
        }
    }
}

/// All that a draw needs to know of a piece of geometry.
pub struct Layout {
    pub draw_array_mode: DrawArrayMode,
    pub position: Option<VertexAttribute>,
    pub color: Option<VertexAttribute>,
    pub texture_coordination: Option<VertexAttribute>,
    pub vertex_count: i32,
    pub vertex_array_object: VertexArrayHandle,
}

/// Geometry that a shader can draw.
pub trait Drawable {
    /// What the methods below return, in one value.
    spec fn layout(&self) -> Layout;

    /// Where the positions are, if the geometry has any.
    fn position(&self) -> (attribute: Option<VertexAttribute>)
        ensures
            attribute == self.layout().position,
    ;

    /// Where the colours are, if the geometry has any.
    fn color(&self) -> (attribute: Option<VertexAttribute>)
        ensures
            attribute == self.layout().color,
    ;

    /// Where the texture coordinates are, if the geometry has any.
    fn texture_coordination(&self) -> (attribute: Option<VertexAttribute>)
        ensures
            attribute == self.layout().texture_coordination,
    ;

    /// How the vertices join into triangles.
    fn draw_array_mode(&self) -> (mode: DrawArrayMode)
        ensures
            mode == self.layout().draw_array_mode,
    ;

    /// The number of vertices.
    fn vertex_count(&self) -> (count: i32)
        ensures
            count == self.layout().vertex_count,
    ;

    /// The vertex array object that holds the geometry.
    fn vertex_array_object(&self) -> (vao: VertexArrayHandle)
        ensures
            vao == self.layout().vertex_array_object,
    ;
}

/// The answers of the device while one stage is compiled: to the creation of
/// the stage, to the question whether it compiled, and to the request for
/// the log.
pub struct CompileAnswers {
    pub created: Reply,
    pub status: Reply,
    pub log: Reply,
}

/// The conversation of `compile_shader`. It ends with the creation if that
/// is refused, and asks for the log only if the stage did not compile.
pub open spec fn compile_events(stage: ShaderStage, source: Seq<char>, answers: CompileAnswers) -> Seq<
    Event,
> {
    let first = seq![Event::Asked(Query::CreateShader(stage.spec_kind()), answers.created)];
    match answers.created.spec_object() {
        None => first,
        Some(id) => {
            let shader = ShaderHandle { id };
            let second = first + seq![
                Event::Sourced { shader, source },
                Event::Told(Command::CompileShader(shader)),
                Event::Asked(Query::GetShaderParameter(shader, COMPILE_STATUS), answers.status),
            ];
            if answers.status.spec_flag() {
                second
            } else {
                second.push(Event::Asked(Query::GetShaderInfoLog(shader), answers.log))
            }
        },
    }
}

/// Whether `result` is what `compile_shader` owes for these answers: the
/// stage if it was created and compiled; a link error if it was not created;
/// else a compile error for that stage whose message is the device's log,
/// word for word, or a fixed text where the device has no log.
pub open spec fn compile_result(
    stage: ShaderStage,
    answers: CompileAnswers,
    result: Result<ShaderHandle, Error>,
) -> bool {
    match result {
        Ok(shader) => answers.created.spec_object() == Some(shader.id) && answers.status.spec_flag(),
        Err(e) => {
            if answers.created.spec_object() is None {
                e.spec_kind() == ErrorKind::ProgramLink && e.text() == "createShader failed."@
            } else {
                &&& !answers.status.spec_flag()
                &&& e.spec_kind() == ErrorKind::ShaderCompile(stage)
                &&& e.text() == match answers.log.spec_text() {
                    Some(log) => log,
                    None => "compleShader failed."@,
                }
            }
        },
    }
}

/// Creates a stage, gives it its source and compiles it.
pub fn compile_shader<D: Device>(gl: &mut GL<D>, stage: ShaderStage, source: &str) -> (result: Result<
    ShaderHandle,
    Error,
>)
    ensures
        exists|answers: CompileAnswers|
            {
                &&& final(gl).history() == old(gl).history() + #[trigger] compile_events(
                    stage,
                    source@,
                    answers,
                )
                &&& compile_result(stage, answers, result)
            },
{
    let ghost before = gl.history();
    let created = gl.ask(Query::CreateShader(stage.kind()));
    let shader = match created.object() {
        Some(id) => ShaderHandle { id },
        None => {
            let result = Err(Error::new(ErrorKind::ProgramLink, "createShader failed."));
            proof {
                let answers = CompileAnswers { created, status: created, log: created };
                assert(gl.history() =~= before + compile_events(stage, source@, answers));
                assert(compile_result(stage, answers, result));
            }
            return result;
        },
    };
    gl.shader_source(shader, source);
    gl.tell(Command::CompileShader(shader));
    let status = gl.ask(Query::GetShaderParameter(shader, COMPILE_STATUS));
    if status.flag() {
        let result = Ok(shader);
        proof {
            let answers = CompileAnswers { created, status, log: status };
            assert(gl.history() =~= before + compile_events(stage, source@, answers));
            assert(compile_result(stage, answers, result));
        }
        result
    } else {
        let log = gl.ask(Query::GetShaderInfoLog(shader));
        let ghost answers = CompileAnswers { created, status, log };
        let result = match log.text() {
            Some(text) => Err(Error::with_message(ErrorKind::ShaderCompile(stage), text)),
            None => Err(Error::new(ErrorKind::ShaderCompile(stage), "compleShader failed.")),
        };
        proof {
            assert(gl.history() =~= before + compile_events(stage, source@, answers));
            assert(compile_result(stage, answers, result));
        }
        result
    }
}

/// The place among a program's inputs that a device's answer stands for:
/// none if the answer is negative.
pub open spec fn spec_attribute_index(location: i32) -> Option<u32> {
    if location < 0 {
        None
    } else {
        Some(location as u32)
    }
}

/// The place among a program's inputs that a device's answer stands for. A
/// negative answer means that the program has no input of that name.
#[verifier::when_used_as_spec(spec_attribute_index)]
pub fn attribute_index(location: i32) -> (index: Option<u32>)
    ensures
        index == spec_attribute_index(location),
{
    if location < 0 {
        None
    } else {
        Some(location as u32)
    }
}

/// The uniform that a device's answer names, if it names one.
pub open spec fn uniform_of(reply: Reply) -> Option<UniformHandle> {
    match reply.spec_object() {
        Some(id) => Some(UniformHandle { id }),
        None => None,
    }
}

/// The conversation that binds one attribute: the program is asked where its
/// input of that name is, and if it has one, the attribute is pointed to it
/// and switched on. If it has none, nothing more is said.
pub open spec fn attribute_events(
    program: ProgramHandle,
    name: AttributeName,
    attribute: VertexAttribute,
    answer: Reply,
) -> Seq<Event> {
    let asked = seq![Event::Asked(Query::GetAttribLocation(program, name), answer)];
    match spec_attribute_index(answer.spec_location()) {
        None => asked,
        Some(index) => asked + seq![
            Event::Told(
                Command::VertexAttribPointer {
                    index,
                    size: attribute.size as i32,
                    kind: FLOAT,
                    normalized: false,
                    stride: attribute.stride as i32,
                    offset: attribute.offset as i32,
                },
            ),
            Event::Told(Command::EnableVertexAttribArray(index)),
        ],
    }
}

/// The conversation for a slot of a layout: that of its attribute if the slot
/// is filled, and none at all if it is empty.
pub open spec fn slot_events(
    program: ProgramHandle,
    name: AttributeName,
    slot: Option<VertexAttribute>,
    answer: Reply,
) -> Seq<Event> {
    match slot {
        Some(attribute) => attribute_events(program, name, attribute, answer),
        None => Seq::empty(),
    }
}

/// The conversation of `enable_vertex_attribute`: the vertex array is bound,
/// the position, colour and texture coordinate slots are bound in that
/// order, and the vertex array is unbound.
pub open spec fn enable_events(
    program: ProgramHandle,
    layout: Layout,
    position: Reply,
    color: Reply,
    texture_coordination: Reply,
) -> Seq<Event> {
    seq![Event::Told(Command::BindVertexArray(Some(layout.vertex_array_object)))] + slot_events(
        program,
        AttributeName::Position,
        layout.position,
        position,
    ) + slot_events(program, AttributeName::Color, layout.color, color) + slot_events(
        program,
        AttributeName::TextureCoord,
        layout.texture_coordination,
        texture_coordination,
    ) + seq![Event::Told(Command::BindVertexArray(None))]
}

/// What `draw` tells the device.
pub open spec fn draw_events(layout: Layout) -> Seq<Event> {
    seq![
        Event::Told(Command::BindVertexArray(Some(layout.vertex_array_object))),
        Event::Told(
            Command::DrawArrays {
                mode: layout.draw_array_mode.number(),
                first: 0,
                count: layout.vertex_count,
            },
        ),
        Event::Told(Command::BindVertexArray(None)),
    ]
}

/// The conversation that sets a uniform: the program is asked for the
/// uniform of that name, and `upload` is told with what it answered.
pub open spec fn uniform_events(
    program: ProgramHandle,
    name: UniformName,
    answer: Reply,
    upload: Command,
) -> Seq<Event> {
    seq![Event::Asked(Query::GetUniformLocation(program, name), answer), Event::Told(upload)]
}

/// A linked program with its two stages.
#[derive(Debug)]
pub struct Shader {
    program: ProgramHandle,
    vertex_shader: ShaderHandle,
    fragment_shader: ShaderHandle,
}

/// The three objects of a shader, as a specification value.
pub struct ShaderView {
    pub program: ProgramHandle,
    pub vertex_shader: ShaderHandle,
    pub fragment_shader: ShaderHandle,
}

impl View for Shader {
    type V = ShaderView;

    closed spec fn view(&self) -> ShaderView {
        ShaderView {
            program: self.program,
            vertex_shader: self.vertex_shader,
            fragment_shader: self.fragment_shader,
        }
    }
}

/// The conversation of `Shader::new`: the program is created, then the
/// vertex stage is compiled, then the fragment stage, and both are attached
/// and the program linked. It ends at the first step that fails.
pub open spec fn shader_creation_events(
    vertex_source: Seq<char>,
    fragment_source: Seq<char>,
    program: Reply,
    vertex: CompileAnswers,
    fragment: CompileAnswers,
) -> Seq<Event> {
    let first = seq![Event::Asked(Query::CreateProgram, program)];
    match program.spec_object() {
        None => first,
        Some(p) => {
            let second = first + compile_events(ShaderStage::Vertex, vertex_source, vertex);
            match stage_of(vertex) {
                None => second,
                Some(v) => {
                    let third = second + compile_events(
                        ShaderStage::Fragment,
                        fragment_source,
                        fragment,
                    );
                    match stage_of(fragment) {
                        None => third,
                        Some(f) => third + seq![
                            Event::Told(Command::AttachShader(ProgramHandle { id: p }, v)),
                            Event::Told(Command::AttachShader(ProgramHandle { id: p }, f)),
                            Event::Told(Command::LinkProgram(ProgramHandle { id: p })),
                        ],
                    }
                },
            }
        },
    }
}

/// The stage that these answers yield: the one created, if it compiled.
pub open spec fn stage_of(answers: CompileAnswers) -> Option<ShaderHandle> {
    match answers.created.spec_object() {
        Some(id) => if answers.status.spec_flag() {
            Some(ShaderHandle { id })
        } else {
            None
        },
        None => None,
    }
}

/// Whether `result` is what `Shader::new` owes for these answers: the shader
/// made of the three objects if all steps succeeded, and else the error of
/// the first step that failed.
pub open spec fn shader_creation_result(
    program: Reply,
    vertex: CompileAnswers,
    fragment: CompileAnswers,
    result: Result<Shader, Error>,
) -> bool {
    match result {
        Ok(shader) => {
            &&& program.spec_object() == Some(shader@.program.id)
            &&& stage_of(vertex) == Some(shader@.vertex_shader)
            &&& stage_of(fragment) == Some(shader@.fragment_shader)
        },
        Err(e) => {
            if program.spec_object() is None {
                e.spec_kind() == ErrorKind::ProgramLink && e.text() == "createProgram failed."@
            } else if stage_of(vertex) is None {
                compile_result(ShaderStage::Vertex, vertex, Err(e))
            } else {
                stage_of(fragment) is None && compile_result(ShaderStage::Fragment, fragment, Err(e))
            }
        },
    }
}

/// What releasing a shader tells the device.
pub open spec fn shader_release_events(shader: ShaderView) -> Seq<Event> {
    seq![
        Event::Told(Command::DeleteProgram(shader.program)),
        Event::Told(Command::DeleteShader(shader.vertex_shader)),
        Event::Told(Command::DeleteShader(shader.fragment_shader)),
    ]
}

impl Shader {
    /// Compiles the two stages and links them into a program.
    pub fn new<D: Device>(gl: &mut GL<D>, vertex_shader_source: &str, fragment_shader_source: &str) -> (result:
        Result<Shader, Error>)
        ensures
            exists|program: Reply, vertex: CompileAnswers, fragment: CompileAnswers|
                {
                    &&& final(gl).history() == old(gl).history()
                        + #[trigger] shader_creation_events(
                        vertex_shader_source@,
                        fragment_shader_source@,
                        program,
                        vertex,
                        fragment,
                    )
                    &&& shader_creation_result(program, vertex, fragment, result)
                },
    {
        let ghost before = gl.history();
        let ghost vs = vertex_shader_source@;
        let ghost fs = fragment_shader_source@;
        let created = gl.ask(Query::CreateProgram);
        let ghost none = CompileAnswers { created, status: created, log: created };
        let program = match created.object() {
            Some(id) => ProgramHandle { id },
            None => {
                let result = Err(Error::new(ErrorKind::ProgramLink, "createProgram failed."));
                proof {
                    assert(gl.history() =~= before + shader_creation_events(vs, fs, created, none, none));
                    assert(shader_creation_result(created, none, none, result));
                }
                return result;
            },
        };
        let ghost after_program = gl.history();
        let compiled = compile_shader(gl, ShaderStage::Vertex, vertex_shader_source);
        let ghost vertex = choose|a: CompileAnswers|
            gl.history() == after_program + #[trigger] compile_events(ShaderStage::Vertex, vs, a)
                && compile_result(ShaderStage::Vertex, a, compiled);
        let vertex_shader = match compiled {
            Ok(shader) => shader,
            Err(e) => {
                let result = Err(e);
                proof {
                    assert(gl.history() =~= before + shader_creation_events(vs, fs, created, vertex, none));
                    assert(shader_creation_result(created, vertex, none, result));
                }
                return result;
            },
        };
        let ghost after_vertex = gl.history();
        let compiled = compile_shader(gl, ShaderStage::Fragment, fragment_shader_source);
        let ghost fragment = choose|a: CompileAnswers|
            gl.history() == after_vertex + #[trigger] compile_events(ShaderStage::Fragment, fs, a)
                && compile_result(ShaderStage::Fragment, a, compiled);
        let fragment_shader = match compiled {
            Ok(shader) => shader,
            Err(e) => {
                let result = Err(e);
                proof {
                    assert(gl.history() =~= before + shader_creation_events(
                        vs,
                        fs,
                        created,
                        vertex,
                        fragment,
                    ));
                    assert(shader_creation_result(created, vertex, fragment, result));
                }
                return result;
            },
        };
        gl.tell(Command::AttachShader(program, vertex_shader));
        gl.tell(Command::AttachShader(program, fragment_shader));
        gl.tell(Command::LinkProgram(program));
        let result = Ok(Shader { program, vertex_shader, fragment_shader });
        proof {
            assert(gl.history() =~= before + shader_creation_events(vs, fs, created, vertex, fragment));
            assert(shader_creation_result(created, vertex, fragment, result));
        }
        result
    }

    /// Binds one attribute of a drawable to the input of that name, if the
    /// program has such an input.
    fn enable_vertex_attribute_array<D: Device>(
        gl: &mut GL<D>,
        program: ProgramHandle,
        name: AttributeName,
        attribute: VertexAttribute,
    ) -> (answer: Ghost<Reply>)
        ensures
            final(gl).history() == old(gl).history() + attribute_events(
                program,
                name,
                attribute,
                answer@,
            ),
    {
        let reply = gl.ask(Query::GetAttribLocation(program, name));
        match attribute_index(reply.location()) {
            Some(index) => {
                gl.tell(
                    Command::VertexAttribPointer {
                        index,
                        size: #[verifier::truncate] (attribute.size as i32),
                        kind: FLOAT,
                        normalized: false,
                        stride: #[verifier::truncate] (attribute.stride as i32),
                        offset: #[verifier::truncate] (attribute.offset as i32),
                    },
                );
                gl.tell(Command::EnableVertexAttribArray(index));
            },
            None => {},
        }
        assert(gl.history() =~= old(gl).history() + attribute_events(
            program,
            name,
            attribute,
            reply,
        ));
        Ghost(reply)
    }

    /// Binds a slot of a drawable, if it is filled.
    fn enable_slot<D: Device>(
        gl: &mut GL<D>,
        program: ProgramHandle,
        name: AttributeName,
        slot: Option<VertexAttribute>,
    ) -> (answer: Ghost<Reply>)
        ensures
            final(gl).history() == old(gl).history() + slot_events(program, name, slot, answer@),
    {
        match slot {
            Some(attribute) => Self::enable_vertex_attribute_array(gl, program, name, attribute),
            None => {
                assert(gl.history() =~= old(gl).history() + Seq::<Event>::empty());
                Ghost(Reply::Location(-1i32))
            },
        }
    }

    /// Binds the slots that `obj` declares to the inputs of this program that
    /// bear their names. A slot whose name the program does not know is
    /// passed over.
    pub fn enable_vertex_attribute<D: Device, T: Drawable>(&self, gl: &mut GL<D>, obj: &T)
        ensures
            exists|position: Reply, color: Reply, texture_coordination: Reply|
                final(gl).history() == old(gl).history() + #[trigger] enable_events(
                    self@.program,
                    obj.layout(),
                    position,
                    color,
                    texture_coordination,
                ),
    {
        let ghost before = gl.history();
        let vao = obj.vertex_array_object();
        gl.tell(Command::BindVertexArray(Some(vao)));
        let position = Self::enable_slot(gl, self.program, AttributeName::Position, obj.position());
        let color = Self::enable_slot(gl, self.program, AttributeName::Color, obj.color());
        let texture_coordination = Self::enable_slot(
            gl,
            self.program,
            AttributeName::TextureCoord,
            obj.texture_coordination(),
        );
        gl.tell(Command::BindVertexArray(None));
        assert(gl.history() =~= before + enable_events(
            self@.program,
            obj.layout(),
            position@,
            color@,
            texture_coordination@,
        ));
    }

    /// Draws all vertices of `obj`. The program must be in use: `enable`
    /// comes before a draw and `disable` after it.
    pub fn draw<D: Device, T: Drawable>(&self, gl: &mut GL<D>, obj: &T)
        requires
            old(gl).state().program == Some(self@.program),
        ensures
            final(gl).history() == old(gl).history() + draw_events(obj.layout()),
    {
        let vao = obj.vertex_array_object();
        gl.tell(Command::BindVertexArray(Some(vao)));
        gl.tell(
            Command::DrawArrays {
                mode: u32::from(obj.draw_array_mode()),
                first: 0,
                count: obj.vertex_count(),
            },
        );
        gl.tell(Command::BindVertexArray(None));
        assert(gl.history() =~= old(gl).history() + draw_events(obj.layout()));
    }

    /// Asks the program for the uniform of the given name.
    fn set_uniform<D: Device>(&self, gl: &mut GL<D>, name: UniformName) -> (r: (
        Option<UniformHandle>,
        Ghost<Reply>,
    ))
        ensures
            final(gl).history() == old(gl).history().push(
                Event::Asked(Query::GetUniformLocation(self@.program, name), r.1@),
            ),
            r.0 == uniform_of(r.1@),
    {
        let reply = gl.ask(Query::GetUniformLocation(self.program, name));
        let location = match reply.object() {
            Some(id) => Some(UniformHandle { id }),
            None => None,
        };
        (location, Ghost(reply))
    }

    /// Sets the transform of the program, the uniform `mvp`. The entries are
    /// handed over row by row. A program without that uniform ignores it.
    pub fn set_uniform_transform<D: Device>(&self, gl: &mut GL<D>, transform: &Transform)
        ensures
            exists|answer: Reply|
                final(gl).history() == old(gl).history() + #[trigger] uniform_events(
                    self@.program,
                    UniformName::Mvp,
                    answer,
                    Command::UniformMatrix4fv {
                        location: uniform_of(answer),
                        transpose: true,
                        matrix: *transform,
                    },
                ),
    {
        let (location, answer) = self.set_uniform(gl, UniformName::Mvp);
        let upload = Command::UniformMatrix4fv { location, transpose: true, matrix: *transform };
        gl.tell(upload);
        assert(gl.history() =~= old(gl).history() + uniform_events(
            self@.program,
            UniformName::Mvp,
            answer@,
            upload,
        ));
    }

    /// Sets the transform of the program, the uniform `mvp`, to a matrix of
    /// scalars. The matrix is handed over row by row. A program without that
    /// uniform ignores it.
    pub fn set_uniform_model_view_perspective<D: Device>(&self, gl: &mut GL<D>, uniform: &Matrix4)
        ensures
            exists|answer: Reply|
                final(gl).history() == old(gl).history() + #[trigger] uniform_events(
                    self@.program,
                    UniformName::Mvp,
                    answer,
                    Command::UniformMatrix4fv {
                        location: uniform_of(answer),
                        transpose: true,
                        matrix: Transform::of(*uniform),
                    },
                ),
    {
        let transform = Transform::from_matrix(uniform);
        self.set_uniform_transform(gl, &transform);
    }

    /// Sets the texture unit of the program's sampler, the uniform
    /// `texture0`. A program without that uniform ignores it.
    pub fn set_uniform_texture<D: Device>(&self, gl: &mut GL<D>, texture_unit: i32)
        ensures
            exists|answer: Reply|
                final(gl).history() == old(gl).history() + #[trigger] uniform_events(
                    self@.program,
                    UniformName::Texture0,
                    answer,
                    Command::Uniform1i(uniform_of(answer), texture_unit),
                ),
    {
        let (location, answer) = self.set_uniform(gl, UniformName::Texture0);
        let upload = Command::Uniform1i(location, texture_unit);
        gl.tell(upload);
        assert(gl.history() =~= old(gl).history() + uniform_events(
            self@.program,
            UniformName::Texture0,
            answer@,
            upload,
        ));
    }

    /// Sets the colour of the program, the uniform `color`. A program without
    /// that uniform ignores it.
    pub fn set_uniform_color<D: Device>(&self, gl: &mut GL<D>, color: Vector4)
        ensures
            exists|answer: Reply|
                final(gl).history() == old(gl).history() + #[trigger] uniform_events(
                    self@.program,
                    UniformName::Color,
                    answer,
                    Command::Uniform4f(uniform_of(answer), color),
                ),
    {
        let (location, answer) = self.set_uniform(gl, UniformName::Color);
        let upload = Command::Uniform4f(location, color);
        gl.tell(upload);
        assert(gl.history() =~= old(gl).history() + uniform_events(
            self@.program,
            UniformName::Color,
            answer@,
            upload,
        ));
    }

    /// The program of this shader.
    pub fn program(&self) -> (program: ProgramHandle)
        ensures
            program == self@.program,
    {
        self.program
    }

    /// Makes this program the one in use.
    pub fn enable<D: Device>(&self, gl: &mut GL<D>)
        ensures
            final(gl).history() == old(gl).history().push(
                Event::Told(Command::UseProgram(Some(self@.program))),
            ),
            final(gl).state().program == Some(self@.program),
    {
        gl.tell(Command::UseProgram(Some(self.program)));
        proof {
            lemma_state_push(
                State::unbound(),
                old(gl).history(),
                Event::Told(Command::UseProgram(Some(self@.program))),
            );
        }
    }

    /// Leaves no program in use.
    pub fn disable<D: Device>(&self, gl: &mut GL<D>)
        ensures
            final(gl).history() == old(gl).history().push(Event::Told(Command::UseProgram(None))),
            final(gl).state().program is None,
    {
        gl.tell(Command::UseProgram(None));
        proof {
            lemma_state_push(
                State::unbound(),
                old(gl).history(),
                Event::Told(Command::UseProgram(None)),
            );
        }
    }

    /// Releases the program and its two stages, each once. The shader is
    /// gone afterwards.
    pub fn release<D: Device>(self, gl: &mut GL<D>)
        ensures
            final(gl).history() == old(gl).history() + shader_release_events(self@),
    {
        gl.tell(Command::DeleteProgram(self.program));
        gl.tell(Command::DeleteShader(self.vertex_shader));
        gl.tell(Command::DeleteShader(self.fragment_shader));
        assert(gl.history() =~= old(gl).history() + shader_release_events(self@));
    }
}

} // verus!
