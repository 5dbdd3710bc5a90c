use retained_gl::error::ErrorKind;
use retained_gl::error::ShaderStage;
use retained_gl::gl::constants;
use retained_gl::gl::device::AttributeName;
use retained_gl::gl::device::BufferHandle;
use retained_gl::gl::device::FramebufferHandle;
use retained_gl::gl::device::ProgramHandle;
use retained_gl::gl::device::RenderbufferHandle;
use retained_gl::gl::device::ShaderHandle;
use retained_gl::gl::device::TextureHandle;
use retained_gl::gl::device::Transform;
use retained_gl::gl::device::UniformHandle;
use retained_gl::gl::device::UniformName;
use retained_gl::gl::device::VertexArrayHandle;
use retained_gl::gl::primitive::transfer;
use retained_gl::gl::primitive::VertexFormat;
use retained_gl::gl::shader::attribute_index;
use retained_gl::gl::shader::compile_shader;
use retained_gl::gl::sprite::SPRITE_FRAGMENT_SHADER;
use retained_gl::gl::sprite::SPRITE_VERTEX_SHADER;
use retained_gl::gl::ColoredSliceTriangleStrip;
use retained_gl::gl::Command;
use retained_gl::gl::Component;
use retained_gl::gl::Device;
use retained_gl::gl::DrawArrayMode;
use retained_gl::gl::Drawable;
use retained_gl::gl::EphemeralPrimitive;
use retained_gl::gl::FrameBuffer;
use retained_gl::gl::Primitive;
use retained_gl::gl::Query;
use retained_gl::gl::Reply;
use retained_gl::gl::Screen;
use retained_gl::gl::Shader;
use retained_gl::gl::Sprite;
use retained_gl::gl::SpriteBatch;
use retained_gl::gl::TriangleStrip;
use retained_gl::gl::UVMappedSliceTriangleList;
use retained_gl::gl::UVMappedSliceTriangleStrip;
use retained_gl::gl::VertexAttribute;
use retained_gl::gl::VertexAttributeArray;
use retained_gl::gl::GL;
use retained_gl::math::Matrix4;
use retained_gl::math::Pixels;
use retained_gl::math::Rectangle;
use retained_gl::math::Scalar;
use retained_gl::math::Size;
use retained_gl::math::Vector2;
use retained_gl::math::Vector3;
use retained_gl::math::Vector4;
use web_sys::WebGl2RenderingContext as W;

fn s(value: f32) -> Scalar {
    Scalar::from_bits(value.to_bits())
}

fn c(value: f32) -> Component {
    Component::Scalar(s(value))
}

#[derive(Debug, Clone, PartialEq)]
enum Record {
    Told(Command),
    Asked(Query),
    Uploaded(u32, Vec<Component>, u32),
    Sourced(ShaderHandle, String),
    Probed(String),
}

/// A device that writes down what it is asked and answers from a script.
struct Mock {
    log: Vec<Record>,
    next: u32,
    refused: Vec<Query>,
    compiles: bool,
    info_log: Option<String>,
    known_attributes: Vec<(AttributeName, i32)>,
    known_uniforms: Vec<(UniformName, u32)>,
    canvas: (u32, u32),
    extension: Option<Result<bool, String>>,
    created: u32,
    deleted: u32,
}

impl Mock {
    fn new() -> Mock {
        Mock {
            log: Vec::new(),
            next: 100,
            refused: Vec::new(),
            compiles: true,
            info_log: None,
            known_attributes: vec![
                (AttributeName::Position, 0),
                (AttributeName::Color, 1),
                (AttributeName::TextureCoord, 2),
            ],
            known_uniforms: vec![
                (UniformName::Mvp, 10),
                (UniformName::Texture0, 11),
                (UniformName::Color, 12),
            ],
            canvas: (640, 480),
            extension: Some(Ok(true)),
            created: 0,
            deleted: 0,
        }
    }

    fn refusing(query: Query) -> Mock {
        let mut mock = Mock::new();
        mock.refused.push(query);
        mock
    }

    fn create(&mut self, query: Query) -> Reply {
        if self.refused.contains(&query) {
            return Reply::Object(None);
        }
        self.next += 1;
        self.created += 1;
        Reply::Object(Some(self.next))
    }
}

impl Device for Mock {
    fn tell(&mut self, command: Command) {
        match command {
            Command::DeleteVertexArray(_)
            | Command::DeleteBuffer(_)
            | Command::DeleteTexture(_)
            | Command::DeleteRenderbuffer(_)
            | Command::DeleteFramebuffer(_)
            | Command::DeleteProgram(_)
            | Command::DeleteShader(_) => self.deleted += 1,
            _ => {}
        }
        self.log.push(Record::Told(command));
    }

    fn ask(&mut self, query: Query) -> Reply {
        self.log.push(Record::Asked(query));
        match query {
            Query::CreateVertexArray
            | Query::CreateBuffer
            | Query::CreateTexture
            | Query::CreateRenderbuffer
            | Query::CreateFramebuffer
            | Query::CreateProgram
            | Query::CreateShader(_) => self.create(query),
            Query::GetShaderParameter(_, _) => Reply::Flag(Some(self.compiles)),
            Query::GetShaderInfoLog(_) => Reply::Text(self.info_log.clone()),
            Query::GetAttribLocation(_, name) => Reply::Location(
                self.known_attributes.iter().find(|(n, _)| *n == name).map(|(_, i)| *i).unwrap_or(-1),
            ),
            Query::GetUniformLocation(_, name) => {
                Reply::Object(self.known_uniforms.iter().find(|(n, _)| *n == name).map(|(_, i)| *i))
            }
            Query::CanvasSize => Reply::Extent(self.canvas.0, self.canvas.1),
        }
    }

    fn buffer_data(&mut self, target: u32, data: &[Component], usage: u32) {
        self.log.push(Record::Uploaded(target, data.to_vec(), usage));
    }

    fn shader_source(&mut self, shader: ShaderHandle, source: &str) {
        self.log.push(Record::Sourced(shader, source.to_string()));
    }

    fn get_extension(&mut self, name: &str) -> Reply {
        self.log.push(Record::Probed(name.to_string()));
        match &self.extension {
            Some(Ok(found)) => Reply::Flag(Some(*found)),
            Some(Err(failure)) => Reply::Text(Some(failure.clone())),
            None => Reply::Flag(None),
        }
    }
}

fn told(command: Command) -> Record {
    Record::Told(command)
}

fn uv(x: f32, y: f32, z: f32, u: f32, v: f32) -> (Vector3, Vector2) {
    (Vector3 { x: s(x), y: s(y), z: s(z) }, Vector2 { x: s(u), y: s(v) })
}

fn upload_of(vao: u32, buffer: u32, data: Vec<Component>) -> Vec<Record> {
    vec![
        told(Command::BindVertexArray(Some(VertexArrayHandle { id: vao }))),
        told(Command::BindBuffer {
            target: constants::ARRAY_BUFFER,
            buffer: Some(BufferHandle { id: buffer }),
        }),
        Record::Uploaded(constants::ARRAY_BUFFER, data, constants::STATIC_DRAW),
        told(Command::BindVertexArray(None)),
    ]
}

fn compile_of(kind: u32, shader: u32, source: &str) -> Vec<Record> {
    let handle = ShaderHandle { id: shader };
    vec![
        Record::Asked(Query::CreateShader(kind)),
        Record::Sourced(handle, source.to_string()),
        told(Command::CompileShader(handle)),
        Record::Asked(Query::GetShaderParameter(handle, constants::COMPILE_STATUS)),
    ]
}

#[test]
fn constants_are_those_of_the_context() {
    assert_eq!(constants::DEPTH_BUFFER_BIT, W::DEPTH_BUFFER_BIT);
    assert_eq!(constants::STENCIL_BUFFER_BIT, W::STENCIL_BUFFER_BIT);
    assert_eq!(constants::COLOR_BUFFER_BIT, W::COLOR_BUFFER_BIT);
    assert_eq!(constants::TRIANGLES, W::TRIANGLES);
    assert_eq!(constants::TRIANGLE_STRIP, W::TRIANGLE_STRIP);
    assert_eq!(constants::CULL_FACE, W::CULL_FACE);
    assert_eq!(constants::DEPTH_TEST, W::DEPTH_TEST);
    assert_eq!(constants::TEXTURE_2D, W::TEXTURE_2D);
    assert_eq!(constants::FLOAT, W::FLOAT);
    assert_eq!(constants::NEAREST, W::NEAREST);
    assert_eq!(constants::TEXTURE_MAG_FILTER, W::TEXTURE_MAG_FILTER);
    assert_eq!(constants::TEXTURE_MIN_FILTER, W::TEXTURE_MIN_FILTER);
    assert_eq!(constants::TEXTURE_WRAP_S, W::TEXTURE_WRAP_S);
    assert_eq!(constants::TEXTURE_WRAP_T, W::TEXTURE_WRAP_T);
    assert_eq!(constants::CLAMP_TO_EDGE, W::CLAMP_TO_EDGE);
    assert_eq!(constants::DEPTH_STENCIL_ATTACHMENT, W::DEPTH_STENCIL_ATTACHMENT);
    assert_eq!(constants::TEXTURE0, W::TEXTURE0);
    assert_eq!(constants::DEPTH_STENCIL, W::DEPTH_STENCIL);
    assert_eq!(constants::RGBA32F, W::RGBA32F);
    assert_eq!(constants::ARRAY_BUFFER, W::ARRAY_BUFFER);
    assert_eq!(constants::STATIC_DRAW, W::STATIC_DRAW);
    assert_eq!(constants::FRAGMENT_SHADER, W::FRAGMENT_SHADER);
    assert_eq!(constants::VERTEX_SHADER, W::VERTEX_SHADER);
    assert_eq!(constants::COMPILE_STATUS, W::COMPILE_STATUS);
    assert_eq!(constants::COLOR_ATTACHMENT0, W::COLOR_ATTACHMENT0);
    assert_eq!(constants::FRAMEBUFFER, W::FRAMEBUFFER);
    assert_eq!(constants::RENDERBUFFER, W::RENDERBUFFER);
}

#[test]
fn draw_modes_have_their_numbers() {
    assert_eq!(u32::from(DrawArrayMode::TriangleStrip), 5);
    assert_eq!(u32::from(DrawArrayMode::TriangleList), 4);
    assert_eq!(ShaderStage::Vertex.kind(), 0x8B31);
    assert_eq!(ShaderStage::Fragment.kind(), 0x8B30);
}

#[test]
fn names_are_those_of_the_shader_source() {
    assert_eq!(AttributeName::Position.as_str(), "position");
    assert_eq!(AttributeName::Color.as_str(), "color");
    assert_eq!(AttributeName::TextureCoord.as_str(), "textureCoord");
    assert_eq!(UniformName::Mvp.as_str(), "mvp");
    assert_eq!(UniformName::Texture0.as_str(), "texture0");
    assert_eq!(UniformName::Color.as_str(), "color");
    assert!(SPRITE_VERTEX_SHADER.starts_with("#version 300 es\n"));
    assert!(SPRITE_VERTEX_SHADER.contains("in vec4 position;"));
    assert!(SPRITE_VERTEX_SHADER.contains("in vec2 textureCoord;"));
    assert!(SPRITE_VERTEX_SHADER.contains("uniform mat4 mvp;"));
    assert!(SPRITE_FRAGMENT_SHADER.starts_with("#version 300 es\n"));
    assert!(SPRITE_FRAGMENT_SHADER.contains("uniform sampler2D texture0;"));
}

#[test]
fn replies_of_another_shape_count_as_nothing() {
    assert_eq!(Reply::Object(Some(3)).object(), Some(3));
    assert_eq!(Reply::Object(None).object(), None);
    assert_eq!(Reply::Flag(Some(true)).object(), None);
    assert!(Reply::Flag(Some(true)).flag());
    assert!(!Reply::Flag(Some(false)).flag());
    assert!(!Reply::Flag(None).flag());
    assert!(!Reply::Object(Some(1)).flag());
    assert_eq!(Reply::Location(4).location(), 4);
    assert_eq!(Reply::Location(-1).location(), -1);
    assert_eq!(Reply::Object(Some(1)).location(), -1);
    assert_eq!(Reply::Text(Some(String::from("log"))).text(), Some(String::from("log")));
    assert_eq!(Reply::Text(None).text(), None);
    assert_eq!(Reply::Location(1).text(), None);
    assert_eq!(Reply::Extent(3, 4).extent(), (3, 4));
    assert_eq!(Reply::Flag(None).extent(), (0, 0));
}

#[test]
fn negative_locations_are_no_place() {
    assert_eq!(attribute_index(-1), None);
    assert_eq!(attribute_index(i32::MIN), None);
    assert_eq!(attribute_index(0), Some(0));
    assert_eq!(attribute_index(i32::MAX), Some(0x7fff_ffff));
}

#[test]
fn formats_place_their_attributes() {
    let list = VertexFormat::UVMappedList;
    assert_eq!(list.draw_array_mode(), DrawArrayMode::TriangleList);
    assert_eq!(list.components_per_vertex(), 5);
    assert_eq!(list.position(), Some(VertexAttribute { offset: 0, size: 3, stride: 20 }));
    assert_eq!(list.color(), None);
    assert_eq!(list.texture_coordination(), Some(VertexAttribute { offset: 12, size: 2, stride: 20 }));
    let strip = VertexFormat::UVMappedStrip;
    assert_eq!(strip.draw_array_mode(), DrawArrayMode::TriangleStrip);
    assert_eq!(strip.components_per_vertex(), 5);
    assert_eq!(strip.position(), list.position());
    assert_eq!(strip.texture_coordination(), list.texture_coordination());
    let colored = VertexFormat::ColoredStrip;
    assert_eq!(colored.draw_array_mode(), DrawArrayMode::TriangleStrip);
    assert_eq!(colored.components_per_vertex(), 7);
    assert_eq!(colored.position(), Some(VertexAttribute { offset: 0, size: 3, stride: 28 }));
    assert_eq!(colored.color(), Some(VertexAttribute { offset: 12, size: 4, stride: 28 }));
    assert_eq!(colored.texture_coordination(), None);
    let plain = VertexFormat::PlainStrip;
    assert_eq!(plain.draw_array_mode(), DrawArrayMode::TriangleStrip);
    assert_eq!(plain.components_per_vertex(), 3);
    assert_eq!(plain.position(), Some(VertexAttribute { offset: 0, size: 3, stride: 0 }));
    assert_eq!(plain.color(), None);
    assert_eq!(plain.texture_coordination(), None);
}

#[test]
fn vertices_flatten_in_order() {
    let vertices = [uv(1.0, 2.0, 3.0, 4.0, 5.0), uv(6.0, 7.0, 8.0, 9.0, 10.0)];
    let expected =
        vec![c(1.0), c(2.0), c(3.0), c(4.0), c(5.0), c(6.0), c(7.0), c(8.0), c(9.0), c(10.0)];
    let strip = UVMappedSliceTriangleStrip(&vertices);
    assert_eq!(strip.as_slice(), expected);
    assert_eq!(strip.vertex_count(), 2);
    assert_eq!(UVMappedSliceTriangleStrip::format(), VertexFormat::UVMappedStrip);
    let list = UVMappedSliceTriangleList(&vertices);
    assert_eq!(list.as_slice(), expected);
    assert_eq!(list.vertex_count(), 2);
    assert_eq!(UVMappedSliceTriangleList::format(), VertexFormat::UVMappedList);
    let none: [(Vector3, Vector2); 0] = [];
    assert_eq!(UVMappedSliceTriangleList(&none).as_slice(), vec![]);
    assert_eq!(UVMappedSliceTriangleList(&none).vertex_count(), 0);
}

#[test]
fn colored_vertices_flatten_in_order() {
    let vertices = [
        (
            Vector3 { x: s(0.5), y: s(-0.5), z: s(0.25) },
            Vector4 { x: s(1.0), y: s(0.0), z: s(0.0), w: s(1.0) },
        ),
        (
            Vector3 { x: s(-0.5), y: s(0.5), z: s(0.75) },
            Vector4 { x: s(0.0), y: s(1.0), z: s(0.5), w: s(0.25) },
        ),
        (
            Vector3 { x: s(9.0), y: s(8.0), z: s(7.0) },
            Vector4 { x: s(6.0), y: s(5.0), z: s(4.0), w: s(3.0) },
        ),
    ];
    let data = ColoredSliceTriangleStrip(&vertices);
    let flat = data.as_slice();
    assert_eq!(flat.len(), 3 * VertexFormat::ColoredStrip.components_per_vertex());
    assert_eq!(
        flat,
        vec![
            c(0.5), c(-0.5), c(0.25), c(1.0), c(0.0), c(0.0), c(1.0),
            c(-0.5), c(0.5), c(0.75), c(0.0), c(1.0), c(0.5), c(0.25),
            c(9.0), c(8.0), c(7.0), c(6.0), c(5.0), c(4.0), c(3.0),
        ]
    );
    assert_eq!(data.vertex_count(), 3);
    assert_eq!(ColoredSliceTriangleStrip::format(), VertexFormat::ColoredStrip);
    let color = VertexFormat::ColoredStrip.color().unwrap();
    let first = color.stride / 4 + color.offset / 4;
    assert_eq!(&flat[first..first + color.size], &[c(0.0), c(1.0), c(0.5), c(0.25)]);
}

#[test]
fn bare_positions_count_by_three() {
    let strip = TriangleStrip { vertices: vec![s(1.0), s(2.0), s(3.0), s(4.0), s(5.0), s(6.0), s(7.0)] };
    assert_eq!(strip.vertex_count(), 2);
    assert_eq!(strip.as_slice(), vec![c(1.0), c(2.0), c(3.0), c(4.0), c(5.0), c(6.0), c(7.0)]);
    assert_eq!(TriangleStrip::format(), VertexFormat::PlainStrip);
    assert_eq!(TriangleStrip { vertices: vec![] }.vertex_count(), 0);
    assert_eq!(TriangleStrip { vertices: vec![s(1.0), s(2.0)] }.vertex_count(), 0);
}

#[test]
fn context_clears() {
    let mut gl = GL::new(Mock::new());
    let color = Vector4 { x: s(1.0), y: s(0.0), z: s(1.0), w: s(0.0) };
    gl.clear(color);
    gl.clear_depth(s(0.0));
    gl.clear_stencil(1);
    assert_eq!(
        gl.into_device().log,
        vec![
            told(Command::ClearColor(color)),
            told(Command::Clear(0x4000)),
            told(Command::ClearDepth(s(0.0))),
            told(Command::Clear(0x0100)),
            told(Command::ClearStencil(1)),
            told(Command::Clear(0x0400)),
        ]
    );
}

#[test]
fn context_reports_the_screen_size() {
    let mut gl = GL::new(Mock::new());
    assert_eq!(gl.screen_size(), Size { w: 640, h: 480 });
    assert_eq!(gl.context().log, vec![Record::Asked(Query::CanvasSize)]);
    let mut mock = Mock::new();
    mock.canvas = (u32::MAX, 0x8000_0000);
    let mut gl = GL::new(mock);
    assert_eq!(gl.screen_size(), Size { w: -1, h: i32::MIN });
}

#[test]
fn context_checks_extensions() {
    let mut gl = GL::new(Mock::new());
    assert!(gl.ensure_extension("EXT_color_buffer_float").is_ok());
    assert_eq!(gl.context().log, vec![Record::Probed(String::from("EXT_color_buffer_float"))]);

    let mut mock = Mock::new();
    mock.extension = Some(Ok(false));
    let mut gl = GL::new(mock);
    let e = gl.ensure_extension("EXT_color_buffer_float").unwrap_err();
    assert_eq!(e.kind(), ErrorKind::Other);
    assert_eq!(e.message(), "EXT_color_buffer_float is disabled");

    let mut mock = Mock::new();
    mock.extension = None;
    let mut gl = GL::new(mock);
    assert_eq!(gl.ensure_extension("X").unwrap_err().message(), "X is disabled");

    let mut mock = Mock::new();
    mock.extension = Some(Err(String::from("JsValue(TypeError)")));
    let mut gl = GL::new(mock);
    let e = gl.ensure_extension("EXT_color_buffer_float").unwrap_err();
    assert_eq!(e.kind(), ErrorKind::Other);
    assert_eq!(e.message(), "JsValue(TypeError)");
}

#[test]
fn binding_replaces_the_target() {
    let mut gl = GL::new(Mock::new());
    let target = FrameBuffer::new(&mut gl, Size { w: 4, h: 4 }).unwrap();
    let before = gl.context().log.len();
    gl.bind_framebuffer(&target);
    let screen = *gl.screen();
    gl.bind_framebuffer(&screen);
    assert_eq!(screen.frame_buffer(), None);
    assert_eq!(target.frame_buffer(), Some(FramebufferHandle { id: 103 }));
    assert_eq!(
        gl.into_device().log[before..],
        [
            told(Command::BindFramebuffer {
                target: constants::FRAMEBUFFER,
                framebuffer: Some(FramebufferHandle { id: 103 }),
            }),
            told(Command::BindFramebuffer { target: constants::FRAMEBUFFER, framebuffer: None }),
        ]
    );
}

fn frame_buffer_script(upto: usize) -> Vec<Record> {
    let rb = RenderbufferHandle { id: 101 };
    let texture = TextureHandle { id: 102 };
    let fb = FramebufferHandle { id: 103 };
    let t2d = constants::TEXTURE_2D;
    let all = vec![
        Record::Asked(Query::CreateRenderbuffer),
        told(Command::BindRenderbuffer { target: constants::RENDERBUFFER, renderbuffer: Some(rb) }),
        told(Command::RenderbufferStorage {
            target: constants::RENDERBUFFER,
            format: constants::DEPTH_STENCIL,
            width: 320,
            height: 200,
        }),
        Record::Asked(Query::CreateTexture),
        told(Command::BindTexture { target: t2d, texture: Some(texture) }),
        told(Command::TexStorage2d {
            target: t2d,
            levels: 1,
            format: constants::RGBA32F,
            width: 320,
            height: 200,
        }),
        told(Command::TexParameteri { target: t2d, name: constants::TEXTURE_WRAP_S, value: 0x812F }),
        told(Command::TexParameteri { target: t2d, name: constants::TEXTURE_WRAP_T, value: 0x812F }),
        told(Command::TexParameteri { target: t2d, name: constants::TEXTURE_MAG_FILTER, value: 0x2600 }),
        told(Command::TexParameteri { target: t2d, name: constants::TEXTURE_MIN_FILTER, value: 0x2600 }),
        Record::Asked(Query::CreateFramebuffer),
        told(Command::BindFramebuffer { target: constants::FRAMEBUFFER, framebuffer: Some(fb) }),
        told(Command::FramebufferRenderbuffer {
            target: constants::FRAMEBUFFER,
            attachment: constants::DEPTH_STENCIL_ATTACHMENT,
            renderbuffer_target: constants::RENDERBUFFER,
            renderbuffer: Some(rb),
        }),
        told(Command::FramebufferTexture2d {
            target: constants::FRAMEBUFFER,
            attachment: constants::COLOR_ATTACHMENT0,
            texture_target: t2d,
            texture: Some(texture),
            level: 0,
        }),
        told(Command::BindFramebuffer { target: constants::FRAMEBUFFER, framebuffer: None }),
    ];
    all[..upto].to_vec()
}

#[test]
fn frame_buffer_is_made_step_by_step() {
    let mut gl = GL::new(Mock::new());
    let target = FrameBuffer::new(&mut gl, Size { w: 320, h: 200 }).unwrap();
    assert_eq!(target.texture(), TextureHandle { id: 102 });
    assert_eq!(target.frame_buffer(), Some(FramebufferHandle { id: 103 }));
    assert_eq!(gl.context().log, frame_buffer_script(15));
    assert_eq!(gl.context().log[1], told(Command::BindRenderbuffer { target: 0x8D41, renderbuffer: Some(RenderbufferHandle { id: 101 }) }));
    target.release(&mut gl);
    assert_eq!(
        gl.context().log[15..],
        [
            told(Command::DeleteFramebuffer(FramebufferHandle { id: 103 })),
            told(Command::DeleteRenderbuffer(RenderbufferHandle { id: 101 })),
            told(Command::DeleteTexture(TextureHandle { id: 102 })),
        ]
    );
    assert_eq!(gl.context().created, 3);
    assert_eq!(gl.context().deleted, 3);
}

#[test]
fn frame_buffer_stops_at_the_first_refusal() {
    let size = Size { w: 320, h: 200 };
    let mut gl = GL::new(Mock::refusing(Query::CreateRenderbuffer));
    let e = FrameBuffer::new(&mut gl, size).unwrap_err();
    assert_eq!(e.kind(), ErrorKind::ResourceCreation);
    assert_eq!(e.message(), "createRenderBuffer failed");
    assert_eq!(gl.into_device().log, frame_buffer_script(1));

    let mut gl = GL::new(Mock::refusing(Query::CreateTexture));
    let e = FrameBuffer::new(&mut gl, size).unwrap_err();
    assert_eq!(e.kind(), ErrorKind::ResourceCreation);
    assert_eq!(e.message(), "createTexture failed");
    assert_eq!(gl.into_device().log, frame_buffer_script(4));

    let mut gl = GL::new(Mock::refusing(Query::CreateFramebuffer));
    let e = FrameBuffer::new(&mut gl, size).unwrap_err();
    assert_eq!(e.kind(), ErrorKind::ResourceCreation);
    assert_eq!(e.message(), "createFramebuffer failed");
    assert_eq!(gl.into_device().log, frame_buffer_script(11));
}

#[test]
fn stage_compiles() {
    let mut gl = GL::new(Mock::new());
    let shader = compile_shader(&mut gl, ShaderStage::Vertex, "void main() {}").unwrap();
    assert_eq!(shader, ShaderHandle { id: 101 });
    assert_eq!(gl.into_device().log, compile_of(constants::VERTEX_SHADER, 101, "void main() {}"));
}

#[test]
fn compile_failure_carries_the_log() {
    let mut mock = Mock::new();
    mock.compiles = false;
    mock.info_log = Some(String::from("ERROR: 0:3: 'foo' : undeclared identifier\n"));
    let mut gl = GL::new(mock);
    let e = compile_shader(&mut gl, ShaderStage::Fragment, "bad").unwrap_err();
    assert_eq!(e.kind(), ErrorKind::ShaderCompile(ShaderStage::Fragment));
    assert_eq!(e.message(), "ERROR: 0:3: 'foo' : undeclared identifier\n");
    let mut expected = compile_of(constants::FRAGMENT_SHADER, 101, "bad");
    expected.push(Record::Asked(Query::GetShaderInfoLog(ShaderHandle { id: 101 })));
    assert_eq!(gl.into_device().log, expected);

    let mut mock = Mock::new();
    mock.compiles = false;
    let mut gl = GL::new(mock);
    let e = compile_shader(&mut gl, ShaderStage::Vertex, "bad").unwrap_err();
    assert_eq!(e.kind(), ErrorKind::ShaderCompile(ShaderStage::Vertex));
    assert_eq!(e.message(), "compleShader failed.");
}

#[test]
fn refused_stage_is_a_link_error() {
    let mut gl = GL::new(Mock::refusing(Query::CreateShader(constants::VERTEX_SHADER)));
    let e = compile_shader(&mut gl, ShaderStage::Vertex, "void main() {}").unwrap_err();
    assert_eq!(e.kind(), ErrorKind::ProgramLink);
    assert_eq!(e.message(), "createShader failed.");
    assert_eq!(
        gl.into_device().log,
        vec![Record::Asked(Query::CreateShader(constants::VERTEX_SHADER))]
    );
}

#[test]
fn shader_is_compiled_and_linked() {
    let mut gl = GL::new(Mock::new());
    let shader = Shader::new(&mut gl, "vs", "fs").unwrap();
    let program = ProgramHandle { id: 101 };
    let mut expected = vec![Record::Asked(Query::CreateProgram)];
    expected.extend(compile_of(constants::VERTEX_SHADER, 102, "vs"));
    expected.extend(compile_of(constants::FRAGMENT_SHADER, 103, "fs"));
    expected.push(told(Command::AttachShader(program, ShaderHandle { id: 102 })));
    expected.push(told(Command::AttachShader(program, ShaderHandle { id: 103 })));
    expected.push(told(Command::LinkProgram(program)));
    assert_eq!(gl.context().log, expected);
    let before = expected.len();
    shader.enable(&mut gl);
    shader.disable(&mut gl);
    shader.release(&mut gl);
    assert_eq!(
        gl.context().log[before..],
        [
            told(Command::UseProgram(Some(program))),
            told(Command::UseProgram(None)),
            told(Command::DeleteProgram(program)),
            told(Command::DeleteShader(ShaderHandle { id: 102 })),
            told(Command::DeleteShader(ShaderHandle { id: 103 })),
        ]
    );
    assert_eq!(gl.context().created, 3);
    assert_eq!(gl.context().deleted, 3);
}

#[test]
fn shader_stops_at_the_first_failure() {
    let mut gl = GL::new(Mock::refusing(Query::CreateProgram));
    let e = Shader::new(&mut gl, "vs", "fs").unwrap_err();
    assert_eq!(e.kind(), ErrorKind::ProgramLink);
    assert_eq!(e.message(), "createProgram failed.");
    assert_eq!(gl.into_device().log, vec![Record::Asked(Query::CreateProgram)]);

    let mut gl = GL::new(Mock::refusing(Query::CreateShader(constants::FRAGMENT_SHADER)));
    let e = Shader::new(&mut gl, "vs", "fs").unwrap_err();
    assert_eq!(e.kind(), ErrorKind::ProgramLink);
    assert_eq!(e.message(), "createShader failed.");
    let mut expected = vec![Record::Asked(Query::CreateProgram)];
    expected.extend(compile_of(constants::VERTEX_SHADER, 102, "vs"));
    expected.push(Record::Asked(Query::CreateShader(constants::FRAGMENT_SHADER)));
    assert_eq!(gl.into_device().log, expected);

    let mut mock = Mock::new();
    mock.compiles = false;
    mock.info_log = Some(String::from("vertex stage is broken"));
    let mut gl = GL::new(mock);
    let e = Shader::new(&mut gl, "vs", "fs").unwrap_err();
    assert_eq!(e.kind(), ErrorKind::ShaderCompile(ShaderStage::Vertex));
    assert_eq!(e.message(), "vertex stage is broken");
    let mut expected = vec![Record::Asked(Query::CreateProgram)];
    expected.extend(compile_of(constants::VERTEX_SHADER, 102, "vs"));
    expected.push(Record::Asked(Query::GetShaderInfoLog(ShaderHandle { id: 102 })));
    assert_eq!(gl.into_device().log, expected);
}

#[test]
fn primitive_uploads_once() {
    let vertices = [uv(1.0, 2.0, 3.0, 4.0, 5.0), uv(6.0, 7.0, 8.0, 9.0, 10.0), uv(0.0, 0.0, 0.0, 0.0, 0.0)];
    let mut gl = GL::new(Mock::new());
    let primitive = Primitive::new(&mut gl, UVMappedSliceTriangleStrip(&vertices)).unwrap();
    assert_eq!(primitive.vertex_count(), 3);
    assert_eq!(primitive.draw_array_mode(), DrawArrayMode::TriangleStrip);
    assert_eq!(primitive.position(), Some(VertexAttribute { offset: 0, size: 3, stride: 20 }));
    assert_eq!(primitive.color(), None);
    assert_eq!(
        primitive.texture_coordination(),
        Some(VertexAttribute { offset: 12, size: 2, stride: 20 })
    );
    assert_eq!(primitive.vertex_array_object(), VertexArrayHandle { id: 101 });
    let mut expected =
        vec![Record::Asked(Query::CreateVertexArray), Record::Asked(Query::CreateBuffer)];
    expected.extend(upload_of(101, 102, UVMappedSliceTriangleStrip(&vertices).as_slice()));
    assert_eq!(gl.context().log, expected);
    primitive.release(&mut gl);
    assert_eq!(
        gl.context().log[expected.len()..],
        [
            told(Command::DeleteVertexArray(VertexArrayHandle { id: 101 })),
            told(Command::DeleteBuffer(BufferHandle { id: 102 })),
        ]
    );
    assert_eq!(gl.context().created, 2);
    assert_eq!(gl.context().deleted, 2);
}

#[test]
fn primitive_stops_at_the_first_refusal() {
    let mut gl = GL::new(Mock::refusing(Query::CreateVertexArray));
    let e = Primitive::new(&mut gl, TriangleStrip { vertices: vec![s(1.0)] }).unwrap_err();
    assert_eq!(e.kind(), ErrorKind::ResourceCreation);
    assert_eq!(e.message(), "createVertexArray failed.");
    assert_eq!(gl.into_device().log, vec![Record::Asked(Query::CreateVertexArray)]);

    let mut gl = GL::new(Mock::refusing(Query::CreateBuffer));
    let e = Primitive::new(&mut gl, TriangleStrip { vertices: vec![s(1.0)] }).unwrap_err();
    assert_eq!(e.kind(), ErrorKind::ResourceCreation);
    assert_eq!(e.message(), "createBuffer failed.");
    assert_eq!(
        gl.into_device().log,
        vec![Record::Asked(Query::CreateVertexArray), Record::Asked(Query::CreateBuffer)]
    );
}

#[test]
fn transfer_overwrites_the_borrowed_buffer() {
    let vao = VertexArrayHandle { id: 5 };
    let buffer = BufferHandle { id: 6 };
    let first = [uv(1.0, 1.0, 1.0, 1.0, 1.0)];
    let second = [uv(2.0, 2.0, 2.0, 2.0, 2.0), uv(3.0, 3.0, 3.0, 3.0, 3.0)];
    let mut gl = GL::new(Mock::new());
    let a = EphemeralPrimitive::transfer(&mut gl, UVMappedSliceTriangleList(&first), &vao, &buffer);
    assert_eq!(a.vertex_count(), 1);
    let b = EphemeralPrimitive::transfer(&mut gl, UVMappedSliceTriangleList(&second), &vao, &buffer);
    assert_eq!(b.vertex_count(), 2);
    assert_eq!(b.vertex_array_object(), vao);
    assert_eq!(b.draw_array_mode(), DrawArrayMode::TriangleList);
    assert_eq!(b.position(), Some(VertexAttribute { offset: 0, size: 3, stride: 20 }));
    assert_eq!(b.color(), None);
    assert_eq!(b.texture_coordination(), Some(VertexAttribute { offset: 12, size: 2, stride: 20 }));
    let mut expected = upload_of(5, 6, UVMappedSliceTriangleList(&first).as_slice());
    expected.extend(upload_of(5, 6, UVMappedSliceTriangleList(&second).as_slice()));
    assert_eq!(gl.context().log, expected);
    assert_eq!(gl.context().created, 0);

    let mut gl = GL::new(Mock::new());
    transfer(&mut gl, TriangleStrip { vertices: vec![s(1.0), s(2.0), s(3.0)] }, &vao, &buffer);
    assert_eq!(gl.into_device().log, upload_of(5, 6, vec![c(1.0), c(2.0), c(3.0)]));
}

fn pointer(index: u32, size: i32, stride: i32, offset: i32) -> Vec<Record> {
    vec![
        told(Command::VertexAttribPointer {
            index,
            size,
            kind: constants::FLOAT,
            normalized: false,
            stride,
            offset,
        }),
        told(Command::EnableVertexAttribArray(index)),
    ]
}

#[test]
fn attributes_bind_by_name() {
    let vertices = [(
        Vector3 { x: s(0.0), y: s(0.0), z: s(0.0) },
        Vector4 { x: s(0.0), y: s(0.0), z: s(0.0), w: s(0.0) },
    )];
    let mut gl = GL::new(Mock::new());
    let shader = Shader::new(&mut gl, "vs", "fs").unwrap();
    let cube = Primitive::new(&mut gl, ColoredSliceTriangleStrip(&vertices)).unwrap();
    let before = gl.context().log.len();
    shader.enable_vertex_attribute(&mut gl, &cube);
    let program = ProgramHandle { id: 101 };
    let vao = cube.vertex_array_object();
    let mut expected = vec![
        told(Command::BindVertexArray(Some(vao))),
        Record::Asked(Query::GetAttribLocation(program, AttributeName::Position)),
    ];
    expected.extend(pointer(0, 3, 28, 0));
    expected.push(Record::Asked(Query::GetAttribLocation(program, AttributeName::Color)));
    expected.extend(pointer(1, 4, 28, 12));
    expected.push(told(Command::BindVertexArray(None)));
    assert_eq!(gl.context().log[before..], expected[..]);
}

#[test]
fn unknown_attributes_are_passed_over() {
    let vertices = [uv(0.0, 0.0, 0.0, 0.0, 0.0)];
    let mut mock = Mock::new();
    mock.known_attributes = vec![(AttributeName::TextureCoord, 4)];
    let mut gl = GL::new(mock);
    let shader = Shader::new(&mut gl, "vs", "fs").unwrap();
    let quad = Primitive::new(&mut gl, UVMappedSliceTriangleStrip(&vertices)).unwrap();
    let before = gl.context().log.len();
    shader.enable_vertex_attribute(&mut gl, &quad);
    let program = ProgramHandle { id: 101 };
    let mut expected = vec![
        told(Command::BindVertexArray(Some(quad.vertex_array_object()))),
        Record::Asked(Query::GetAttribLocation(program, AttributeName::Position)),
        Record::Asked(Query::GetAttribLocation(program, AttributeName::TextureCoord)),
    ];
    expected.extend(pointer(4, 2, 20, 12));
    expected.push(told(Command::BindVertexArray(None)));
    assert_eq!(gl.context().log[before..], expected[..]);
}

#[test]
fn draw_brackets_the_vertex_array() {
    let mut gl = GL::new(Mock::new());
    let shader = Shader::new(&mut gl, "vs", "fs").unwrap();
    let strip = Primitive::new(
        &mut gl,
        TriangleStrip { vertices: vec![s(0.0); 12] },
    )
    .unwrap();
    assert_eq!(gl.program_in_use(), None);
    shader.enable(&mut gl);
    assert_eq!(gl.program_in_use(), Some(shader.program()));
    let before = gl.context().log.len();
    shader.draw(&mut gl, &strip);
    assert_eq!(
        gl.context().log[before..],
        [
            told(Command::BindVertexArray(Some(strip.vertex_array_object()))),
            told(Command::DrawArrays { mode: 5, first: 0, count: 4 }),
            told(Command::BindVertexArray(None)),
        ]
    );
    assert_eq!(gl.program_in_use(), Some(ProgramHandle { id: 101 }));
    shader.disable(&mut gl);
    assert_eq!(gl.program_in_use(), None);
}

#[test]
fn the_program_in_use_is_the_last_one_enabled() {
    let mut gl = GL::new(Mock::new());
    let first = Shader::new(&mut gl, "vs", "fs").unwrap();
    let second = Shader::new(&mut gl, "vs", "fs").unwrap();
    assert_ne!(first.program(), second.program());
    first.enable(&mut gl);
    second.enable(&mut gl);
    assert_eq!(gl.program_in_use(), Some(second.program()));
    gl.clear_stencil(0);
    let _ = gl.screen_size();
    assert_eq!(gl.program_in_use(), Some(second.program()));
    gl.tell(Command::UseProgram(Some(first.program())));
    assert_eq!(gl.program_in_use(), Some(first.program()));
    first.disable(&mut gl);
    assert_eq!(gl.program_in_use(), None);
}

#[test]
fn a_batch_leaves_no_program_in_use() {
    let whole = Vector4 { x: s(0.0), y: s(0.0), z: s(1.0), w: s(1.0) };
    let mut gl = GL::new(Mock::new());
    let sprite = Sprite::new(&mut gl, Size { w: 200, h: 100 }).unwrap();
    let mut batch = SpriteBatch::new();
    batch.add(&TextureHandle { id: 7 }, whole, Rectangle { x: 0, y: 0, w: 10, h: 10 });
    sprite.draw(&mut gl, batch);
    assert_eq!(gl.program_in_use(), None);
}

#[test]
fn uniforms_are_found_by_name() {
    let mut gl = GL::new(Mock::new());
    let shader = Shader::new(&mut gl, "vs", "fs").unwrap();
    let before = gl.context().log.len();
    let m = Matrix4::translation(s(1.0), s(2.0), s(3.0));
    let color = Vector4 { x: s(0.1), y: s(0.2), z: s(0.3), w: s(0.4) };
    shader.set_uniform_model_view_perspective(&mut gl, &m);
    shader.set_uniform_texture(&mut gl, 3);
    shader.set_uniform_color(&mut gl, color);
    let program = ProgramHandle { id: 101 };
    assert_eq!(
        gl.context().log[before..],
        [
            Record::Asked(Query::GetUniformLocation(program, UniformName::Mvp)),
            told(Command::UniformMatrix4fv {
                location: Some(UniformHandle { id: 10 }),
                transpose: true,
                matrix: Transform::from_matrix(&m),
            }),
            Record::Asked(Query::GetUniformLocation(program, UniformName::Texture0)),
            told(Command::Uniform1i(Some(UniformHandle { id: 11 }), 3)),
            Record::Asked(Query::GetUniformLocation(program, UniformName::Color)),
            told(Command::Uniform4f(Some(UniformHandle { id: 12 }), color)),
        ]
    );
}

#[test]
fn unknown_uniforms_are_handed_on_as_none() {
    let mut mock = Mock::new();
    mock.known_uniforms = vec![];
    let mut gl = GL::new(mock);
    let shader = Shader::new(&mut gl, "vs", "fs").unwrap();
    let before = gl.context().log.len();
    shader.set_uniform_texture(&mut gl, 0);
    assert_eq!(
        gl.context().log[before..],
        [
            Record::Asked(Query::GetUniformLocation(
                ProgramHandle { id: 101 },
                UniformName::Texture0
            )),
            told(Command::Uniform1i(None, 0)),
        ]
    );
}

fn sprite_script() -> Vec<Record> {
    let mut expected = vec![Record::Asked(Query::CreateProgram)];
    expected.extend(compile_of(constants::VERTEX_SHADER, 102, SPRITE_VERTEX_SHADER));
    expected.extend(compile_of(constants::FRAGMENT_SHADER, 103, SPRITE_FRAGMENT_SHADER));
    let program = ProgramHandle { id: 101 };
    expected.push(told(Command::AttachShader(program, ShaderHandle { id: 102 })));
    expected.push(told(Command::AttachShader(program, ShaderHandle { id: 103 })));
    expected.push(told(Command::LinkProgram(program)));
    expected.push(Record::Asked(Query::CreateBuffer));
    expected.push(Record::Asked(Query::CreateVertexArray));
    expected
}

#[test]
fn sprite_renderer_is_made_and_released() {
    let mut gl = GL::new(Mock::new());
    let sprite = Sprite::new(&mut gl, Size { w: 200, h: 100 }).unwrap();
    assert_eq!(sprite.screen_size(), Size { w: 200, h: 100 });
    assert_eq!(gl.context().log, sprite_script());
    let before = gl.context().log.len();
    sprite.release(&mut gl);
    assert_eq!(
        gl.context().log[before..],
        [
            told(Command::DeleteProgram(ProgramHandle { id: 101 })),
            told(Command::DeleteShader(ShaderHandle { id: 102 })),
            told(Command::DeleteShader(ShaderHandle { id: 103 })),
            told(Command::DeleteVertexArray(VertexArrayHandle { id: 105 })),
            told(Command::DeleteBuffer(BufferHandle { id: 104 })),
        ]
    );
    assert_eq!(gl.context().created, 5);
    assert_eq!(gl.context().deleted, 5);
}

fn program_release() -> Vec<Record> {
    vec![
        told(Command::DeleteProgram(ProgramHandle { id: 101 })),
        told(Command::DeleteShader(ShaderHandle { id: 102 })),
        told(Command::DeleteShader(ShaderHandle { id: 103 })),
    ]
}

#[test]
fn sprite_renderer_stops_at_the_first_refusal() {
    let size = Size { w: 200, h: 100 };
    let mut gl = GL::new(Mock::refusing(Query::CreateBuffer));
    let e = Sprite::new(&mut gl, size).unwrap_err();
    assert_eq!(e.kind(), ErrorKind::ResourceCreation);
    assert_eq!(e.message(), "glCreateBuffer failed");
    let mut expected = sprite_script()[..13].to_vec();
    expected.extend(program_release());
    let mock = gl.into_device();
    assert_eq!(mock.log, expected);
    assert_eq!(mock.created, 3);
    assert_eq!(mock.deleted, 3);

    let mut gl = GL::new(Mock::refusing(Query::CreateVertexArray));
    let e = Sprite::new(&mut gl, size).unwrap_err();
    assert_eq!(e.kind(), ErrorKind::ResourceCreation);
    assert_eq!(e.message(), "glCreateVertexArray failed");
    let mut expected = sprite_script();
    expected.extend(program_release());
    let mock = gl.into_device();
    assert_eq!(mock.log, expected);
    assert_eq!(mock.created, 4);
    assert_eq!(mock.deleted, 3);

    let mut gl = GL::new(Mock::refusing(Query::CreateProgram));
    let e = Sprite::new(&mut gl, size).unwrap_err();
    assert_eq!(e.kind(), ErrorKind::ProgramLink);
    assert_eq!(e.message(), "createProgram failed.");
    assert_eq!(gl.into_device().log, sprite_script()[..1]);
}

#[test]
fn a_sprite_is_bound_to_the_first_unit_whatever_was_active() {
    let whole = Vector4 { x: s(0.0), y: s(0.0), z: s(1.0), w: s(1.0) };
    let mut gl = GL::new(Mock::new());
    let sprite = Sprite::new(&mut gl, Size { w: 200, h: 100 }).unwrap();
    gl.tell(Command::ActiveTexture(constants::TEXTURE0 + 1));
    let before = gl.context().log.len();
    let mut batch = SpriteBatch::new();
    batch.add(&TextureHandle { id: 7 }, whole, Rectangle { x: 0, y: 0, w: 10, h: 10 });
    sprite.draw(&mut gl, batch);
    let log = &gl.context().log[before..];
    let active = log
        .iter()
        .position(|r| *r == told(Command::ActiveTexture(constants::TEXTURE0)))
        .unwrap();
    let bound = log
        .iter()
        .position(|r| {
            *r == told(Command::BindTexture {
                target: constants::TEXTURE_2D,
                texture: Some(TextureHandle { id: 7 }),
            })
        })
        .unwrap();
    let drawn = log.iter().position(|r| matches!(r, Record::Told(Command::DrawArrays { .. }))).unwrap();
    assert_eq!(bound, active + 1);
    assert!(bound < drawn);
}

fn command_script(texture: u32, data: Vec<Component>, count: i32, transform: Transform) -> Vec<Record> {
    let program = ProgramHandle { id: 101 };
    let vao = VertexArrayHandle { id: 105 };
    let mut expected = upload_of(105, 104, data);
    expected.push(told(Command::BindVertexArray(Some(vao))));
    expected.push(Record::Asked(Query::GetAttribLocation(program, AttributeName::Position)));
    expected.extend(pointer(0, 3, 20, 0));
    expected.push(Record::Asked(Query::GetAttribLocation(program, AttributeName::TextureCoord)));
    expected.extend(pointer(2, 2, 20, 12));
    expected.push(told(Command::BindVertexArray(None)));
    expected.push(told(Command::ActiveTexture(constants::TEXTURE0)));
    expected.push(told(Command::BindTexture {
        target: constants::TEXTURE_2D,
        texture: Some(TextureHandle { id: texture }),
    }));
    expected.push(told(Command::UseProgram(Some(program))));
    expected.push(Record::Asked(Query::GetUniformLocation(program, UniformName::Mvp)));
    expected.push(told(Command::UniformMatrix4fv {
        location: Some(UniformHandle { id: 10 }),
        transpose: true,
        matrix: transform,
    }));
    expected.push(Record::Asked(Query::GetUniformLocation(program, UniformName::Texture0)));
    expected.push(told(Command::Uniform1i(Some(UniformHandle { id: 11 }), 0)));
    expected.push(told(Command::BindVertexArray(Some(vao))));
    expected.push(told(Command::DrawArrays { mode: 4, first: 0, count }));
    expected.push(told(Command::BindVertexArray(None)));
    expected.push(told(Command::UseProgram(None)));
    expected.push(told(Command::BindTexture { target: constants::TEXTURE_2D, texture: None }));
    expected
}

fn normalizer_of_200_by_100() -> Transform {
    let o = c(0.0);
    Transform {
        m11: Component::Quotient { numerator: 2, denominator: 200 },
        m12: o,
        m13: o,
        m14: c(-1.0),
        m21: o,
        m22: Component::Quotient { numerator: -2, denominator: 100 },
        m23: o,
        m24: c(1.0),
        m31: o,
        m32: o,
        m33: o,
        m34: o,
        m41: o,
        m42: o,
        m43: o,
        m44: c(1.0),
    }
}

/// The single-precision number that a device makes of a component.
fn stored(component: Component) -> f32 {
    match component {
        Component::Pixels(pixels) => pixels.origin as f32 + pixels.extent as f32,
        Component::Quotient { numerator, denominator } => numerator as f32 / denominator as f32,
        Component::Scalar(scalar) => f32::from_bits(scalar.to_bits()),
    }
}

fn moved(t: Transform, point: (f32, f32, f32)) -> (f32, f32, f32) {
    let (x, y, z) = point;
    let w = 1.0 / (stored(t.m41) * x + stored(t.m42) * y + stored(t.m43) * z + stored(t.m44));
    (
        (stored(t.m11) * x + stored(t.m12) * y + stored(t.m13) * z + stored(t.m14)) * w,
        (stored(t.m21) * x + stored(t.m22) * y + stored(t.m23) * z + stored(t.m24)) * w,
        (stored(t.m31) * x + stored(t.m32) * y + stored(t.m33) * z + stored(t.m34)) * w,
    )
}

#[test]
fn normalizer_takes_the_corners_to_clip_space() {
    let t = Sprite::normalizer(Size { w: 200, h: 100 });
    assert_eq!(t, normalizer_of_200_by_100());
    assert_eq!(stored(t.m11), 2.0 / 200.0);
    assert_eq!(stored(t.m22), -2.0 / 100.0);
    assert_eq!(moved(t, (0.0, 0.0, 0.0)), (-1.0, 1.0, 0.0));
    assert_eq!(moved(t, (200.0, 100.0, 0.0)), (1.0, -1.0, 0.0));
    let t = Sprite::normalizer(Size { w: 1920, h: 1080 });
    assert_eq!(moved(t, (0.0, 0.0, 0.0)), (-1.0, 1.0, 0.0));
    assert_eq!(moved(t, (960.0, 540.0, 0.0)), (0.0, 0.0, 0.0));
    let none = Sprite::normalizer(Size { w: 0, h: 0 });
    assert_eq!(none.m11, Component::Quotient { numerator: 2, denominator: 0 });
    assert!(stored(none.m11).is_infinite());
}

#[test]
fn a_matrix_is_handed_over_entry_for_entry() {
    let m = Matrix4::translation(s(1.0), s(2.0), s(3.0));
    let t = Transform::from_matrix(&m);
    assert_eq!(t.m14, c(1.0));
    assert_eq!(t.m24, c(2.0));
    assert_eq!(t.m34, c(3.0));
    assert_eq!(t.m11, c(1.0));
    assert_eq!(t.m41, c(0.0));
    assert_eq!(moved(t, (10.0, 20.0, 30.0)), (11.0, 22.0, 33.0));
}

fn p(origin: i32, extent: i32) -> Component {
    Component::Pixels(Pixels { origin, extent })
}

#[test]
fn batch_is_drawn_command_by_command() {
    let whole = Vector4 { x: s(0.0), y: s(0.0), z: s(1.0), w: s(1.0) };
    let transform = normalizer_of_200_by_100();
    let mut gl = GL::new(Mock::new());
    let sprite = Sprite::new(&mut gl, Size { w: 200, h: 100 }).unwrap();
    let before = gl.context().log.len();
    let mut batch = SpriteBatch::new();
    batch.add(&TextureHandle { id: 7 }, whole, Rectangle { x: 0, y: 0, w: 10, h: 10 });
    batch.add(&TextureHandle { id: 8 }, whole, Rectangle { x: 1, y: 2, w: 3, h: 4 });
    batch.add(&TextureHandle { id: 8 }, whole, Rectangle { x: 0, y: 0, w: 1, h: 1 });
    sprite.draw(&mut gl, batch);

    let first = vec![
        p(0, 0), p(0, 0), p(0, 0), c(0.0), c(1.0),
        p(0, 0), p(0, 10), p(0, 0), c(0.0), c(0.0),
        p(0, 10), p(0, 0), p(0, 0), c(1.0), c(1.0),
        p(0, 10), p(0, 10), p(0, 0), c(1.0), c(0.0),
        p(0, 10), p(0, 0), p(0, 0), c(1.0), c(1.0),
        p(0, 0), p(0, 10), p(0, 0), c(0.0), c(0.0),
    ];
    let second = vec![
        p(1, 0), p(2, 0), p(0, 0), c(0.0), c(1.0),
        p(1, 0), p(2, 4), p(0, 0), c(0.0), c(0.0),
        p(1, 3), p(2, 0), p(0, 0), c(1.0), c(1.0),
        p(1, 3), p(2, 4), p(0, 0), c(1.0), c(0.0),
        p(1, 3), p(2, 0), p(0, 0), c(1.0), c(1.0),
        p(1, 0), p(2, 4), p(0, 0), c(0.0), c(0.0),
        p(0, 0), p(0, 0), p(0, 0), c(0.0), c(1.0),
        p(0, 0), p(0, 1), p(0, 0), c(0.0), c(0.0),
        p(0, 1), p(0, 0), p(0, 0), c(1.0), c(1.0),
        p(0, 1), p(0, 1), p(0, 0), c(1.0), c(0.0),
        p(0, 1), p(0, 0), p(0, 0), c(1.0), c(1.0),
        p(0, 0), p(0, 1), p(0, 0), c(0.0), c(0.0),
    ];
    let mut expected = vec![
        told(Command::Disable(constants::DEPTH_TEST)),
        told(Command::Disable(constants::CULL_FACE)),
    ];
    expected.extend(command_script(7, first, 6, transform));
    expected.extend(command_script(8, second, 12, transform));
    assert_eq!(gl.context().log[before..], expected[..]);
    assert_eq!(gl.context().created, 5);
}

#[test]
fn empty_batch_only_switches_the_tests_off() {
    let mut gl = GL::new(Mock::new());
    let sprite = Sprite::new(&mut gl, Size { w: 200, h: 100 }).unwrap();
    let before = gl.context().log.len();
    sprite.draw(&mut gl, SpriteBatch::new());
    assert_eq!(
        gl.context().log[before..],
        [told(Command::Disable(0x0B71)), told(Command::Disable(0x0B44))]
    );
}

#[test]
fn every_resource_deletes_what_it_created() {
    let vertices = [uv(0.0, 0.0, 0.0, 0.0, 0.0)];
    let mut gl = GL::new(Mock::new());
    {
        let target = FrameBuffer::new(&mut gl, Size { w: 8, h: 8 }).unwrap();
        let shader = Shader::new(&mut gl, "vs", "fs").unwrap();
        let quad = Primitive::new(&mut gl, UVMappedSliceTriangleStrip(&vertices)).unwrap();
        let sprite = Sprite::new(&mut gl, Size { w: 8, h: 8 }).unwrap();
        assert_eq!(gl.context().created, 3 + 3 + 2 + 5);
        assert_eq!(gl.context().deleted, 0);
        shader.enable_vertex_attribute(&mut gl, &quad);
        shader.enable(&mut gl);
        shader.draw(&mut gl, &quad);
        shader.disable(&mut gl);
        sprite.release(&mut gl);
        quad.release(&mut gl);
        shader.release(&mut gl);
        target.release(&mut gl);
    }
    let mock = gl.into_device();
    assert_eq!(mock.created, 13);
    assert_eq!(mock.deleted, 13);
    let mut made: Vec<u32> = Vec::new();
    let mut gone: Vec<u32> = Vec::new();
    for record in &mock.log {
        match record {
            Record::Told(Command::DeleteVertexArray(h)) => gone.push(h.id),
            Record::Told(Command::DeleteBuffer(h)) => gone.push(h.id),
            Record::Told(Command::DeleteTexture(h)) => gone.push(h.id),
            Record::Told(Command::DeleteRenderbuffer(h)) => gone.push(h.id),
            Record::Told(Command::DeleteFramebuffer(h)) => gone.push(h.id),
            Record::Told(Command::DeleteProgram(h)) => gone.push(h.id),
            Record::Told(Command::DeleteShader(h)) => gone.push(h.id),
            _ => {}
        }
    }
    for id in 101..=113 {
        made.push(id);
    }
    gone.sort();
    assert_eq!(gone, made);
}
