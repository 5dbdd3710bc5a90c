//! What the crate asks of the rendering device, and what the device answers.
use vstd::prelude::*;
use crate::math::matrix::Matrix4;
use crate::math::rectangle::Pixels;
use crate::math::scalar::Scalar;
use crate::math::vector::Vector4;

verus! {

/// The name of a vertex array object on the device.
#[derive(Debug, Clone, Copy, PartialEq, Eq, Structural)]
pub struct VertexArrayHandle {
    pub id: u32,
}

/// The name of a buffer on the device.
#[derive(Debug, Clone, Copy, PartialEq, Eq, Structural)]
pub struct BufferHandle {
    pub id: u32,
}

/// The name of a texture on the device.
#[derive(Debug, Clone, Copy, PartialEq, Eq, Structural)]
pub struct TextureHandle {
    pub id: u32,
}

/// The name of a renderbuffer on the device.
#[derive(Debug, Clone, Copy, PartialEq, Eq, Structural)]
pub struct RenderbufferHandle {
    pub id: u32,
}

/// The name of a framebuffer on the device.
#[derive(Debug, Clone, Copy, PartialEq, Eq, Structural)]
pub struct FramebufferHandle {
    pub id: u32,
}

/// The name of a program on the device.
#[derive(Debug, Clone, Copy, PartialEq, Eq, Structural)]
pub struct ProgramHandle {
    pub id: u32,
}

/// The name of one compiled stage on the device.
#[derive(Debug, Clone, Copy, PartialEq, Eq, Structural)]
pub struct ShaderHandle {
    pub id: u32,
}

/// The place of a uniform in a linked program.
#[derive(Debug, Clone, Copy, PartialEq, Eq, Structural)]
pub struct UniformHandle {
    pub id: u32,
}

/// The vertex inputs that a program of this crate may declare.
#[derive(Debug, Clone, Copy, PartialEq, Eq, Structural)]
pub enum AttributeName {
    Position,
    Color,
    TextureCoord,
}

/// The uniforms that a program of this crate may declare.
#[derive(Debug, Clone, Copy, PartialEq, Eq, Structural)]
pub enum UniformName {
    Mvp,
    Texture0,
    Color,
}

impl AttributeName {
    /// The identifier of this input in shader source.
    pub open spec fn spec_as_str(self) -> &'static str {
        match self {
            AttributeName::Position => "position",
            AttributeName::Color => "color",
            AttributeName::TextureCoord => "textureCoord",
        }
    }

    /// The identifier of this input in shader source.
    #[verifier::when_used_as_spec(spec_as_str)]
    pub fn as_str(self) -> (name: &'static str)
        ensures
            name == self.spec_as_str(),
    {
        match self {
            AttributeName::Position => "position",
            AttributeName::Color => "color",
            AttributeName::TextureCoord => "textureCoord",
        }
    }
}

impl UniformName {
    /// The identifier of this uniform in shader source.
    pub open spec fn spec_as_str(self) -> &'static str {
        match self {
            UniformName::Mvp => "mvp",
            UniformName::Texture0 => "texture0",
            UniformName::Color => "color",
        }
    }

    /// The identifier of this uniform in shader source.
    #[verifier::when_used_as_spec(spec_as_str)]
    pub fn as_str(self) -> (name: &'static str)
        ensures
            name == self.spec_as_str(),
    {
        match self {
            UniformName::Mvp => "mvp",
            UniformName::Texture0 => "texture0",
            UniformName::Color => "color",
        }
    }
}

/// One number handed to the device, in a vertex buffer or in a matrix. The
/// device stores each as a single-precision value.
#[derive(Debug, Clone, Copy, PartialEq)]
pub enum Component {
    /// A coordinate in pixels. The device converts both terms to single
    /// precision and stores their sum.
    Pixels(Pixels),
    /// The quotient of two whole numbers. The device converts both to single
    /// precision and stores the first divided by the second.
    Quotient { numerator: i32, denominator: i32 },
    /// A scalar, stored as it is.
    Scalar(Scalar),
}

/// A 4x4 matrix as it is handed to the device. The field `mRC` is the entry
/// of row R, column C.
#[derive(Debug, Clone, Copy, PartialEq)]
pub struct Transform {
    pub m11: Component,
    pub m12: Component,
    pub m13: Component,
    pub m14: Component,
    pub m21: Component,
    pub m22: Component,
    pub m23: Component,
    pub m24: Component,
    pub m31: Component,
    pub m32: Component,
    pub m33: Component,
    pub m34: Component,
    pub m41: Component,
    pub m42: Component,
    pub m43: Component,
    pub m44: Component,
}

impl Transform {
    /// The transform whose entries are the scalars of the matrix.
    pub open spec fn of(matrix: Matrix4) -> Transform {
        Transform {
            m11: Component::Scalar(matrix.m11),
            m12: Component::Scalar(matrix.m12),
            m13: Component::Scalar(matrix.m13),
            m14: Component::Scalar(matrix.m14),
            m21: Component::Scalar(matrix.m21),
            m22: Component::Scalar(matrix.m22),
            m23: Component::Scalar(matrix.m23),
            m24: Component::Scalar(matrix.m24),
            m31: Component::Scalar(matrix.m31),
            m32: Component::Scalar(matrix.m32),
            m33: Component::Scalar(matrix.m33),
            m34: Component::Scalar(matrix.m34),
            m41: Component::Scalar(matrix.m41),
            m42: Component::Scalar(matrix.m42),
            m43: Component::Scalar(matrix.m43),
            m44: Component::Scalar(matrix.m44),
        }
    }

    /// The sixteen entries, row after row.
    pub open spec fn entries(self) -> Seq<Component> {
        seq![
            self.m11, self.m12, self.m13, self.m14,
            self.m21, self.m22, self.m23, self.m24,
            self.m31, self.m32, self.m33, self.m34,
            self.m41, self.m42, self.m43, self.m44,
        ]
    }

    /// The transform whose entries are the scalars of the matrix.
    pub fn from_matrix(matrix: &Matrix4) -> (transform: Transform)
        ensures
            transform == Transform::of(*matrix),
    {
        Transform {
            m11: Component::Scalar(matrix.m11),
            m12: Component::Scalar(matrix.m12),
            m13: Component::Scalar(matrix.m13),
            m14: Component::Scalar(matrix.m14),
            m21: Component::Scalar(matrix.m21),
            m22: Component::Scalar(matrix.m22),
            m23: Component::Scalar(matrix.m23),
            m24: Component::Scalar(matrix.m24),
            m31: Component::Scalar(matrix.m31),
            m32: Component::Scalar(matrix.m32),
            m33: Component::Scalar(matrix.m33),
            m34: Component::Scalar(matrix.m34),
            m41: Component::Scalar(matrix.m41),
            m42: Component::Scalar(matrix.m42),
            m43: Component::Scalar(matrix.m43),
            m44: Component::Scalar(matrix.m44),
        }
    }
}

/// A request that the device carries out without an answer.
#[derive(Debug, Clone, Copy, PartialEq)]
pub enum Command {
    DeleteVertexArray(VertexArrayHandle),
    DeleteBuffer(BufferHandle),
    DeleteTexture(TextureHandle),
    DeleteRenderbuffer(RenderbufferHandle),
    DeleteFramebuffer(FramebufferHandle),
    DeleteProgram(ProgramHandle),
    DeleteShader(ShaderHandle),
    BindVertexArray(Option<VertexArrayHandle>),
    BindBuffer { target: u32, buffer: Option<BufferHandle> },
    BindTexture { target: u32, texture: Option<TextureHandle> },
    BindRenderbuffer { target: u32, renderbuffer: Option<RenderbufferHandle> },
    BindFramebuffer { target: u32, framebuffer: Option<FramebufferHandle> },
    ActiveTexture(u32),
    UseProgram(Option<ProgramHandle>),
    RenderbufferStorage { target: u32, format: u32, width: i32, height: i32 },
    TexStorage2d { target: u32, levels: i32, format: u32, width: i32, height: i32 },
    TexParameteri { target: u32, name: u32, value: i32 },
    FramebufferRenderbuffer {
        target: u32,
        attachment: u32,
        renderbuffer_target: u32,
        renderbuffer: Option<RenderbufferHandle>,
    },
    FramebufferTexture2d {
        target: u32,
        attachment: u32,
        texture_target: u32,
        texture: Option<TextureHandle>,
        level: i32,
    },
    CompileShader(ShaderHandle),
    AttachShader(ProgramHandle, ShaderHandle),
    LinkProgram(ProgramHandle),
    VertexAttribPointer {
        index: u32,
        size: i32,
        kind: u32,
        normalized: bool,
        stride: i32,
        offset: i32,
    },
    EnableVertexAttribArray(u32),
    DrawArrays { mode: u32, first: i32, count: i32 },
    Uniform1i(Option<UniformHandle>, i32),
    Uniform4f(Option<UniformHandle>, Vector4),
    UniformMatrix4fv { location: Option<UniformHandle>, transpose: bool, matrix: Transform },
    Enable(u32),
    Disable(u32),
    ClearColor(Vector4),
    ClearDepth(Scalar),
    ClearStencil(i32),
    Clear(u32),
}

/// A request that the device answers.
#[derive(Debug, Clone, Copy, PartialEq, Eq, Structural)]
pub enum Query {
    CreateVertexArray,
    CreateBuffer,
    CreateTexture,
    CreateRenderbuffer,
    CreateFramebuffer,
    CreateProgram,
    /// Creates a stage of the given kind.
    CreateShader(u32),
    GetShaderParameter(ShaderHandle, u32),
    GetShaderInfoLog(ShaderHandle),
    GetAttribLocation(ProgramHandle, AttributeName),
    GetUniformLocation(ProgramHandle, UniformName),
    CanvasSize,
}

/// An answer of the device.
#[derive(Debug)]
pub enum Reply {
    /// The name of a new object or of a uniform, or nothing where the device
    /// has none to give.
    Object(Option<u32>),
    /// A yes or no, or nothing where the device gave neither.
    Flag(Option<bool>),
    /// A place among a program's inputs; negative where there is none.
    Location(i32),
    /// A diagnostic text, if the device has one.
    Text(Option<String>),
    /// A width and a height.
    Extent(u32, u32),
}

impl Reply {
    /// The object that this answer names. An answer of another shape names none.
    pub open spec fn spec_object(&self) -> Option<u32> {
        match self {
            Reply::Object(name) => *name,
            _ => None,
        }
    }

    /// Whether this answer is a yes. Anything but a clear yes is a no.
    pub open spec fn spec_flag(&self) -> bool {
        match self {
            Reply::Flag(Some(flag)) => *flag,
            _ => false,
        }
    }

    /// The place that this answer gives. An answer of another shape gives -1,
    /// the device's own word for no place.
    pub open spec fn spec_location(&self) -> i32 {
        match self {
            Reply::Location(index) => *index,
            _ => -1i32,
        }
    }

    /// The characters of the text that this answer carries, if it carries one.
    pub open spec fn spec_text(&self) -> Option<Seq<char>> {
        match self {
            Reply::Text(Some(text)) => Some(text@),
            _ => None,
        }
    }

    /// The width and height that this answer gives; zero by zero for an
    /// answer of another shape.
    pub open spec fn spec_extent(&self) -> (u32, u32) {
        match self {
            Reply::Extent(width, height) => (*width, *height),
            _ => (0, 0),
        }
    }

    /// The object that this answer names, if any.
    #[verifier::when_used_as_spec(spec_object)]
    pub fn object(&self) -> (name: Option<u32>)
        ensures
            name == self.spec_object(),
    {
        match self {
            Reply::Object(name) => *name,
            _ => None,
        }
    }

    /// Whether this answer is a clear yes.
    #[verifier::when_used_as_spec(spec_flag)]
    pub fn flag(&self) -> (yes: bool)
        ensures
            yes == self.spec_flag(),
    {
        match self {
            Reply::Flag(Some(flag)) => *flag,
            _ => false,
        }
    }

    /// The place that this answer gives, or -1.
    #[verifier::when_used_as_spec(spec_location)]
    pub fn location(&self) -> (index: i32)
        ensures
            index == self.spec_location(),
    {
        match self {
            Reply::Location(index) => *index,
            _ => -1,
        }
    }

    /// Takes the text out of this answer, if it carries one.
    pub fn text(self) -> (text: Option<String>)
        ensures
            match text {
                Some(t) => self.spec_text() == Some(t@),
                None => self.spec_text() is None,
            },
    {
        match self {
            Reply::Text(Some(text)) => Some(text),
            _ => None,
        }
    }

    /// The width and height that this answer gives, or zero by zero.
    #[verifier::when_used_as_spec(spec_extent)]
    pub fn extent(&self) -> (size: (u32, u32))
        ensures
            size == self.spec_extent(),
    {
        match self {
            Reply::Extent(width, height) => (*width, *height),
            _ => (0, 0),
        }
    }
}

/// One step of the conversation with the device.
pub enum Event {
    /// A command was given.
    Told(Command),
    /// A query was put, and this was the answer.
    Asked(Query, Reply),
    /// The components were stored in the buffer bound to `target`.
    Uploaded { target: u32, data: Seq<Component>, usage: u32 },
    /// The text became the source of the stage.
    Sourced { shader: ShaderHandle, source: Seq<char> },
    /// The device was asked for the extension of that name, and this was the
    /// answer.
    Probed { name: Seq<char>, reply: Reply },
}

/// The rendering device. The embedding program implements it on top of the
/// real context; nothing is assumed of what it answers.
pub trait Device {
    /// Carries out a command.
    fn tell(&mut self, command: Command);

    /// Answers a query.
    fn ask(&mut self, query: Query) -> Reply;

    /// Stores `data` in the buffer bound to `target`, replacing what it held.
    fn buffer_data(&mut self, target: u32, data: &[Component], usage: u32);

    /// Makes `source` the source text of `shader`.
    fn shader_source(&mut self, shader: ShaderHandle, source: &str);

    /// Switches on the extension of the given name. The answer is a flag
    /// that says whether the device has it, or the text of the failure if
    /// the request itself failed.
    fn get_extension(&mut self, name: &str) -> Reply;
}

} // verus!
