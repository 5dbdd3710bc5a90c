//! The lifetime of device objects: what a conversation creates and what it
//! deletes, and the proof that each resource deletes exactly what it created.
use vstd::multiset::Multiset;
use vstd::prelude::*;
use crate::gl::device::BufferHandle;
use crate::gl::device::Command;
use crate::gl::device::Component;
use crate::gl::device::Event;
use crate::gl::device::FramebufferHandle;
use crate::gl::device::ProgramHandle;
use crate::gl::device::Query;
use crate::gl::device::RenderbufferHandle;
use crate::gl::device::Reply;
use crate::gl::device::ShaderHandle;
use crate::gl::device::TextureHandle;
use crate::gl::device::VertexArrayHandle;
use crate::gl::primitive::primitive_creation_events;
use crate::gl::primitive::primitive_release_events;
use crate::gl::primitive::transfer_events;
use crate::gl::screen::attachment_events;
use crate::gl::screen::creation_events;
use crate::gl::screen::release_events;
use crate::gl::screen::texture_setup_events;
use crate::gl::screen::FrameBufferView;
use crate::gl::shader::compile_events;
use crate::gl::shader::shader_creation_events;
use crate::gl::shader::shader_release_events;
use crate::gl::shader::stage_of;
use crate::gl::shader::CompileAnswers;
use crate::gl::shader::ShaderView;
use crate::gl::sprite::program_of;
use crate::gl::sprite::sprite_creation_events;
use crate::gl::sprite::sprite_release_events;
use crate::gl::sprite::SpriteAnswers;
use crate::gl::sprite::SpriteView;
use crate::error::ShaderStage;
use crate::math::rectangle::Size;

verus! {

/// An object that lives on the device until it is deleted.
pub enum Object {
    VertexArray(VertexArrayHandle),
    Buffer(BufferHandle),
    Texture(TextureHandle),
    Renderbuffer(RenderbufferHandle),
    Framebuffer(FramebufferHandle),
    Program(ProgramHandle),
    Shader(ShaderHandle),
}

/// The object that an event brought to life: the one that the device named
/// in answer to a creation query.
pub open spec fn created(event: Event) -> Option<Object> {
    match event {
        Event::Asked(query, reply) => match reply.spec_object() {
            None => None,
            Some(id) => match query {
                Query::CreateVertexArray => Some(Object::VertexArray(VertexArrayHandle { id })),
                Query::CreateBuffer => Some(Object::Buffer(BufferHandle { id })),
                Query::CreateTexture => Some(Object::Texture(TextureHandle { id })),
                Query::CreateRenderbuffer => Some(Object::Renderbuffer(RenderbufferHandle { id })),
                Query::CreateFramebuffer => Some(Object::Framebuffer(FramebufferHandle { id })),
                Query::CreateProgram => Some(Object::Program(ProgramHandle { id })),
                Query::CreateShader(_) => Some(Object::Shader(ShaderHandle { id })),
                _ => None,
            },
        },
        _ => None,
    }
}

/// The object that an event deleted.
pub open spec fn deleted(event: Event) -> Option<Object> {
    match event {
        Event::Told(Command::DeleteVertexArray(handle)) => Some(Object::VertexArray(handle)),
        Event::Told(Command::DeleteBuffer(handle)) => Some(Object::Buffer(handle)),
        Event::Told(Command::DeleteTexture(handle)) => Some(Object::Texture(handle)),
        Event::Told(Command::DeleteRenderbuffer(handle)) => Some(Object::Renderbuffer(handle)),
        Event::Told(Command::DeleteFramebuffer(handle)) => Some(Object::Framebuffer(handle)),
        Event::Told(Command::DeleteProgram(handle)) => Some(Object::Program(handle)),
        Event::Told(Command::DeleteShader(handle)) => Some(Object::Shader(handle)),
        _ => None,
    }
}

/// The objects that a conversation created, each as often as it was created.
pub open spec fn creations(events: Seq<Event>) -> Multiset<Object>
    decreases events.len(),
{
    if events.len() == 0 {
        Multiset::empty()
    } else {
        match created(events.last()) {
            Some(object) => creations(events.drop_last()).insert(object),
            None => creations(events.drop_last()),
        }
    }
}

/// The objects that a conversation deleted, each as often as it was deleted.
pub open spec fn deletions(events: Seq<Event>) -> Multiset<Object>
    decreases events.len(),
{
    if events.len() == 0 {
        Multiset::empty()
    } else {
        match deleted(events.last()) {
            Some(object) => deletions(events.drop_last()).insert(object),
            None => deletions(events.drop_last()),
        }
    }
}

/// Whether a conversation deleted what it created, no more and no less.
pub open spec fn balanced(events: Seq<Event>) -> bool {
    creations(events) == deletions(events)
}

/// Whether a conversation neither created nor deleted anything.
pub open spec fn quiet(events: Seq<Event>) -> bool {
    forall|i: int|
        0 <= i < events.len() ==> created(#[trigger] events[i]) is None && deleted(events[i])
            is None
}

/// What two conversations created or deleted one after the other is the sum
/// of what each did.
pub proof fn lemma_concat(first: Seq<Event>, second: Seq<Event>)
    ensures
        creations(first + second) == creations(first).add(creations(second)),
        deletions(first + second) == deletions(first).add(deletions(second)),
    decreases second.len(),
{
    if second.len() == 0 {
        assert(first + second =~= first);
        assert(creations(first).add(creations(second)) =~= creations(first));
        assert(deletions(first).add(deletions(second)) =~= deletions(first));
    } else {
        let whole = first + second;
        assert(whole.drop_last() =~= first + second.drop_last());
        assert(whole.last() == second.last());
        lemma_concat(first, second.drop_last());
        assert(creations(whole) =~= creations(first).add(creations(second)));
        assert(deletions(whole) =~= deletions(first).add(deletions(second)));
    }
}

/// A quiet conversation created nothing and deleted nothing.
pub proof fn lemma_quiet(events: Seq<Event>)
    requires
        quiet(events),
    ensures
        creations(events) == Multiset::<Object>::empty(),
        deletions(events) == Multiset::<Object>::empty(),
    decreases events.len(),
{
    if events.len() > 0 {
        assert(created(events[events.len() - 1]) is None);
        assert(deleted(events[events.len() - 1]) is None);
        assert forall|i: int| 0 <= i < events.drop_last().len() implies created(
            #[trigger] events.drop_last()[i],
        ) is None && deleted(events.drop_last()[i]) is None by {
            assert(events.drop_last()[i] == events[i]);
        }
        lemma_quiet(events.drop_last());
    }
}

/// What a conversation of one event created and deleted.
pub proof fn lemma_single(event: Event)
    ensures
        creations(seq![event]) == match created(event) {
            Some(object) => Multiset::singleton(object),
            None => Multiset::empty(),
        },
        deletions(seq![event]) == match deleted(event) {
            Some(object) => Multiset::singleton(object),
            None => Multiset::empty(),
        },
{
    let events = seq![event];
    assert(events.drop_last() =~= Seq::<Event>::empty());
    assert(events.last() == event);
    assert(creations(events.drop_last()) == Multiset::<Object>::empty());
    assert(deletions(events.drop_last()) == Multiset::<Object>::empty());
    match created(event) {
        Some(object) => {
            assert(Multiset::<Object>::empty().insert(object) =~= Multiset::singleton(object));
        },
        None => {},
    }
    match deleted(event) {
        Some(object) => {
            assert(Multiset::<Object>::empty().insert(object) =~= Multiset::singleton(object));
        },
        None => {},
    }
}

/// A conversation that creates and deletes nothing of its own, between one
/// that only creates and one that deletes exactly what the first created,
/// makes a balanced whole.
pub proof fn lemma_balance(creation: Seq<Event>, between: Seq<Event>, release: Seq<Event>)
    requires
        deletions(creation) == Multiset::<Object>::empty(),
        creations(release) == Multiset::<Object>::empty(),
        deletions(release) == creations(creation),
        quiet(between),
    ensures
        balanced(creation + between + release),
{
    lemma_quiet(between);
    lemma_concat(creation, between);
    lemma_concat(creation + between, release);
    assert(creations(creation + between + release) =~= creations(creation));
    assert(deletions(creation + between + release) =~= creations(creation));
}

/// A geometry resource deletes on release exactly the vertex array and the
/// buffer that its creation made, each once: the conversation of a creation
/// that succeeded, followed by that of the release, is balanced. Whatever
/// was said in between, if it was quiet, leaves it so.
pub proof fn lemma_primitive_lifetime(
    data: Seq<Component>,
    vao: Reply,
    buffer: Reply,
    between: Seq<Event>,
)
    requires
        vao.spec_object() is Some,
        buffer.spec_object() is Some,
        quiet(between),
    ensures
        ({
            let v = VertexArrayHandle { id: vao.spec_object().unwrap() };
            let b = BufferHandle { id: buffer.spec_object().unwrap() };
            let creation = primitive_creation_events(data, vao, buffer);
            let release = primitive_release_events(v, b);
            &&& creations(creation) == Multiset::singleton(Object::VertexArray(v)).insert(
                Object::Buffer(b),
            )
            &&& deletions(creation) == Multiset::<Object>::empty()
            &&& creations(release) == Multiset::<Object>::empty()
            &&& deletions(release) == creations(creation)
            &&& balanced(creation + between + release)
        }),
{
    let v = VertexArrayHandle { id: vao.spec_object().unwrap() };
    let b = BufferHandle { id: buffer.spec_object().unwrap() };
    let creation = primitive_creation_events(data, vao, buffer);
    let release = primitive_release_events(v, b);
    let e1 = Event::Asked(Query::CreateVertexArray, vao);
    let e2 = Event::Asked(Query::CreateBuffer, buffer);
    let upload = transfer_events(data, v, b);
    assert(creation =~= seq![e1] + seq![e2] + upload);
    lemma_single(e1);
    lemma_single(e2);
    assert(quiet(upload));
    lemma_quiet(upload);
    lemma_concat(seq![e1], seq![e2]);
    lemma_concat(seq![e1] + seq![e2], upload);
    let d1 = Event::Told(Command::DeleteVertexArray(v));
    let d2 = Event::Told(Command::DeleteBuffer(b));
    assert(release =~= seq![d1] + seq![d2]);
    lemma_single(d1);
    lemma_single(d2);
    lemma_concat(seq![d1], seq![d2]);
    let created_objects = Multiset::singleton(Object::VertexArray(v)).insert(Object::Buffer(b));
    assert(creations(creation) =~= created_objects);
    assert(deletions(release) =~= created_objects);
    assert(deletions(creation) =~= Multiset::<Object>::empty());
    assert(creations(release) =~= Multiset::<Object>::empty());
    lemma_balance(creation, between, release);
}

/// An off-screen target deletes on release exactly the renderbuffer, the
/// texture and the framebuffer that its creation made, each once.
pub proof fn lemma_frame_buffer_lifetime(
    size: Size,
    render_buffer: Reply,
    texture: Reply,
    frame_buffer: Reply,
    between: Seq<Event>,
)
    requires
        render_buffer.spec_object() is Some,
        texture.spec_object() is Some,
        frame_buffer.spec_object() is Some,
        quiet(between),
    ensures
        ({
            let target = FrameBufferView {
                frame_buffer: FramebufferHandle { id: frame_buffer.spec_object().unwrap() },
                render_buffer: RenderbufferHandle { id: render_buffer.spec_object().unwrap() },
                texture: TextureHandle { id: texture.spec_object().unwrap() },
            };
            let creation = creation_events(size, render_buffer, texture, frame_buffer);
            let release = release_events(target);
            &&& creations(creation) == Multiset::singleton(
                Object::Renderbuffer(target.render_buffer),
            ).insert(Object::Texture(target.texture)).insert(
                Object::Framebuffer(target.frame_buffer),
            )
            &&& deletions(creation) == Multiset::<Object>::empty()
            &&& creations(release) == Multiset::<Object>::empty()
            &&& deletions(release) == creations(creation)
            &&& balanced(creation + between + release)
        }),
{
    let target = FrameBufferView {
        frame_buffer: FramebufferHandle { id: frame_buffer.spec_object().unwrap() },
        render_buffer: RenderbufferHandle { id: render_buffer.spec_object().unwrap() },
        texture: TextureHandle { id: texture.spec_object().unwrap() },
    };
    let creation = creation_events(size, render_buffer, texture, frame_buffer);
    let release = release_events(target);
    let e1 = Event::Asked(Query::CreateRenderbuffer, render_buffer);
    let storage = seq![
        Event::Told(
            Command::BindRenderbuffer {
                target: crate::gl::constants::RENDERBUFFER,
                renderbuffer: Some(target.render_buffer),
            },
        ),
        Event::Told(
            Command::RenderbufferStorage {
                target: crate::gl::constants::RENDERBUFFER,
                format: crate::gl::constants::DEPTH_STENCIL,
                width: size.w,
                height: size.h,
            },
        ),
    ];
    let e2 = Event::Asked(Query::CreateTexture, texture);
    let setup = texture_setup_events(target.texture, size);
    let e3 = Event::Asked(Query::CreateFramebuffer, frame_buffer);
    let attach = attachment_events(target);
    let s1 = seq![e1];
    let s2 = s1 + storage;
    let s3 = s2 + seq![e2];
    let s4 = s3 + setup;
    let s5 = s4 + seq![e3];
    let s6 = s5 + attach;
    assert(creation =~= s6);
    lemma_single(e1);
    lemma_single(e2);
    lemma_single(e3);
    assert(quiet(storage));
    assert(quiet(setup));
    assert(quiet(attach));
    lemma_quiet(storage);
    lemma_quiet(setup);
    lemma_quiet(attach);
    lemma_concat(s1, storage);
    lemma_concat(s2, seq![e2]);
    lemma_concat(s3, setup);
    lemma_concat(s4, seq![e3]);
    lemma_concat(s5, attach);
    let d1 = Event::Told(Command::DeleteFramebuffer(target.frame_buffer));
    let d2 = Event::Told(Command::DeleteRenderbuffer(target.render_buffer));
    let d3 = Event::Told(Command::DeleteTexture(target.texture));
    assert(release =~= seq![d1] + seq![d2] + seq![d3]);
    lemma_single(d1);
    lemma_single(d2);
    lemma_single(d3);
    lemma_concat(seq![d1], seq![d2]);
    lemma_concat(seq![d1] + seq![d2], seq![d3]);
    let created_objects = Multiset::singleton(Object::Renderbuffer(target.render_buffer)).insert(
        Object::Texture(target.texture),
    ).insert(Object::Framebuffer(target.frame_buffer));
    assert(creations(creation) =~= created_objects);
    assert(deletions(release) =~= created_objects);
    assert(deletions(creation) =~= Multiset::<Object>::empty());
    assert(creations(release) =~= Multiset::<Object>::empty());
    lemma_balance(creation, between, release);
}

/// What the compilation of one stage created: the stage, if the device made
/// one. It deleted nothing.
pub proof fn lemma_compile_creates(stage: ShaderStage, source: Seq<char>, answers: CompileAnswers)
    ensures
        creations(compile_events(stage, source, answers)) == match answers.created.spec_object() {
            Some(id) => Multiset::singleton(Object::Shader(ShaderHandle { id })),
            None => Multiset::empty(),
        },
        deletions(compile_events(stage, source, answers)) == Multiset::<Object>::empty(),
{
    let e1 = Event::Asked(Query::CreateShader(stage.spec_kind()), answers.created);
    lemma_single(e1);
    match answers.created.spec_object() {
        None => {
            assert(compile_events(stage, source, answers) =~= seq![e1]);
        },
        Some(id) => {
            let shader = ShaderHandle { id };
            let rest = compile_events(stage, source, answers).subrange(
                1,
                compile_events(stage, source, answers).len() as int,
            );
            assert(compile_events(stage, source, answers) =~= seq![e1] + rest);
            assert(quiet(rest));
            lemma_quiet(rest);
            lemma_concat(seq![e1], rest);
            assert(creations(seq![e1] + rest) =~= Multiset::singleton(Object::Shader(shader)));
            assert(deletions(seq![e1] + rest) =~= Multiset::<Object>::empty());
        },
    }
}

/// A shader deletes on release exactly the program and the two stages that
/// its creation made, each once.
pub proof fn lemma_shader_lifetime(
    vertex_source: Seq<char>,
    fragment_source: Seq<char>,
    program: Reply,
    vertex: CompileAnswers,
    fragment: CompileAnswers,
    between: Seq<Event>,
)
    requires
        program.spec_object() is Some,
        stage_of(vertex) is Some,
        stage_of(fragment) is Some,
        quiet(between),
    ensures
        ({
            let shader = ShaderView {
                program: ProgramHandle { id: program.spec_object().unwrap() },
                vertex_shader: stage_of(vertex).unwrap(),
                fragment_shader: stage_of(fragment).unwrap(),
            };
            let creation = shader_creation_events(
                vertex_source,
                fragment_source,
                program,
                vertex,
                fragment,
            );
            let release = shader_release_events(shader);
            &&& creations(creation) == Multiset::singleton(Object::Program(shader.program)).insert(
                Object::Shader(shader.vertex_shader),
            ).insert(Object::Shader(shader.fragment_shader))
            &&& deletions(creation) == Multiset::<Object>::empty()
            &&& creations(release) == Multiset::<Object>::empty()
            &&& deletions(release) == creations(creation)
            &&& balanced(creation + between + release)
        }),
{
    let shader = ShaderView {
        program: ProgramHandle { id: program.spec_object().unwrap() },
        vertex_shader: stage_of(vertex).unwrap(),
        fragment_shader: stage_of(fragment).unwrap(),
    };
    let creation = shader_creation_events(vertex_source, fragment_source, program, vertex, fragment);
    let release = shader_release_events(shader);
    let e1 = Event::Asked(Query::CreateProgram, program);
    let c1 = compile_events(ShaderStage::Vertex, vertex_source, vertex);
    let c2 = compile_events(ShaderStage::Fragment, fragment_source, fragment);
    let link = seq![
        Event::Told(Command::AttachShader(shader.program, shader.vertex_shader)),
        Event::Told(Command::AttachShader(shader.program, shader.fragment_shader)),
        Event::Told(Command::LinkProgram(shader.program)),
    ];
    let s1 = seq![e1];
    let s2 = s1 + c1;
    let s3 = s2 + c2;
    let s4 = s3 + link;
    assert(creation =~= s4);
    lemma_single(e1);
    lemma_compile_creates(ShaderStage::Vertex, vertex_source, vertex);
    lemma_compile_creates(ShaderStage::Fragment, fragment_source, fragment);
    assert(quiet(link));
    lemma_quiet(link);
    lemma_concat(s1, c1);
    lemma_concat(s2, c2);
    lemma_concat(s3, link);
    let d1 = Event::Told(Command::DeleteProgram(shader.program));
    let d2 = Event::Told(Command::DeleteShader(shader.vertex_shader));
    let d3 = Event::Told(Command::DeleteShader(shader.fragment_shader));
    assert(release =~= seq![d1] + seq![d2] + seq![d3]);
    lemma_single(d1);
    lemma_single(d2);
    lemma_single(d3);
    lemma_concat(seq![d1], seq![d2]);
    lemma_concat(seq![d1] + seq![d2], seq![d3]);
    let created_objects = Multiset::singleton(Object::Program(shader.program)).insert(
        Object::Shader(shader.vertex_shader),
    ).insert(Object::Shader(shader.fragment_shader));
    assert(creations(creation) =~= created_objects);
    assert(deletions(release) =~= created_objects);
    assert(deletions(creation) =~= Multiset::<Object>::empty());
    assert(creations(release) =~= Multiset::<Object>::empty());
    lemma_balance(creation, between, release);
}

/// A sprite renderer deletes on release exactly what its creation made: the
/// program with its two stages, the buffer and the vertex array, each once.
pub proof fn lemma_sprite_lifetime(answers: SpriteAnswers, screen_size: Size, between: Seq<Event>)
    requires
        program_of(answers) is Some,
        answers.buffer.spec_object() is Some,
        answers.vao.spec_object() is Some,
        quiet(between),
    ensures
        ({
            let sprite = SpriteView {
                shader: program_of(answers).unwrap(),
                vao: VertexArrayHandle { id: answers.vao.spec_object().unwrap() },
                vbuf: BufferHandle { id: answers.buffer.spec_object().unwrap() },
                screen_size,
            };
            let creation = sprite_creation_events(answers);
            let release = sprite_release_events(sprite);
            &&& creations(creation) == Multiset::singleton(
                Object::Program(sprite.shader.program),
            ).insert(Object::Shader(sprite.shader.vertex_shader)).insert(
                Object::Shader(sprite.shader.fragment_shader),
            ).insert(Object::Buffer(sprite.vbuf)).insert(Object::VertexArray(sprite.vao))
            &&& deletions(creation) == Multiset::<Object>::empty()
            &&& creations(release) == Multiset::<Object>::empty()
            &&& deletions(release) == creations(creation)
            &&& balanced(creation + between + release)
        }),
{
    let shader = program_of(answers).unwrap();
    let sprite = SpriteView {
        shader,
        vao: VertexArrayHandle { id: answers.vao.spec_object().unwrap() },
        vbuf: BufferHandle { id: answers.buffer.spec_object().unwrap() },
        screen_size,
    };
    let creation = sprite_creation_events(answers);
    let release = sprite_release_events(sprite);
    let made = shader_creation_events(
        crate::gl::sprite::SPRITE_VERTEX_SHADER@,
        crate::gl::sprite::SPRITE_FRAGMENT_SHADER@,
        answers.program,
        answers.vertex,
        answers.fragment,
    );
    let e1 = Event::Asked(Query::CreateBuffer, answers.buffer);
    let e2 = Event::Asked(Query::CreateVertexArray, answers.vao);
    let none = Seq::<Event>::empty();
    lemma_shader_lifetime(
        crate::gl::sprite::SPRITE_VERTEX_SHADER@,
        crate::gl::sprite::SPRITE_FRAGMENT_SHADER@,
        answers.program,
        answers.vertex,
        answers.fragment,
        none,
    );
    assert(creation =~= made + seq![e1] + seq![e2]);
    lemma_single(e1);
    lemma_single(e2);
    lemma_concat(made, seq![e1]);
    lemma_concat(made + seq![e1], seq![e2]);
    let gone = shader_release_events(shader);
    let d1 = Event::Told(Command::DeleteVertexArray(sprite.vao));
    let d2 = Event::Told(Command::DeleteBuffer(sprite.vbuf));
    assert(release =~= gone + seq![d1] + seq![d2]);
    lemma_single(d1);
    lemma_single(d2);
    lemma_concat(gone, seq![d1]);
    lemma_concat(gone + seq![d1], seq![d2]);
    let created_objects = Multiset::singleton(Object::Program(shader.program)).insert(
        Object::Shader(shader.vertex_shader),
    ).insert(Object::Shader(shader.fragment_shader)).insert(Object::Buffer(sprite.vbuf)).insert(
        Object::VertexArray(sprite.vao),
    );
    assert(creations(creation) =~= created_objects);
    assert(deletions(release) =~= created_objects);
    assert(deletions(creation) =~= Multiset::<Object>::empty());
    assert(creations(release) =~= Multiset::<Object>::empty());
    lemma_balance(creation, between, release);
}

/// A sprite renderer whose buffer or vertex array was refused leaves no
/// program behind: the conversation deletes the program and both stages that
/// it created, each once. A buffer that was created before the vertex array
/// was refused is all that stays.
pub proof fn lemma_sprite_refusal(answers: SpriteAnswers)
    requires
        program_of(answers) is Some,
        answers.buffer.spec_object() is None || answers.vao.spec_object() is None,
    ensures
        ({
            let shader = program_of(answers).unwrap();
            let made = Multiset::singleton(Object::Program(shader.program)).insert(
                Object::Shader(shader.vertex_shader),
            ).insert(Object::Shader(shader.fragment_shader));
            let events = sprite_creation_events(answers);
            &&& deletions(events) == made
            &&& creations(events) == match answers.buffer.spec_object() {
                Some(id) => made.insert(Object::Buffer(BufferHandle { id })),
                None => made,
            }
        }),
{
    let shader = program_of(answers).unwrap();
    let events = sprite_creation_events(answers);
    let creation = shader_creation_events(
        crate::gl::sprite::SPRITE_VERTEX_SHADER@,
        crate::gl::sprite::SPRITE_FRAGMENT_SHADER@,
        answers.program,
        answers.vertex,
        answers.fragment,
    );
    let gone = shader_release_events(shader);
    let e1 = Event::Asked(Query::CreateBuffer, answers.buffer);
    let e2 = Event::Asked(Query::CreateVertexArray, answers.vao);
    let made = Multiset::singleton(Object::Program(shader.program)).insert(
        Object::Shader(shader.vertex_shader),
    ).insert(Object::Shader(shader.fragment_shader));
    lemma_shader_lifetime(
        crate::gl::sprite::SPRITE_VERTEX_SHADER@,
        crate::gl::sprite::SPRITE_FRAGMENT_SHADER@,
        answers.program,
        answers.vertex,
        answers.fragment,
        Seq::<Event>::empty(),
    );
    lemma_single(e1);
    lemma_single(e2);
    lemma_concat(creation, seq![e1]);
    match answers.buffer.spec_object() {
        None => {
            assert(events =~= creation + seq![e1] + gone);
            lemma_concat(creation + seq![e1], gone);
            assert(creations(events) =~= made);
            assert(deletions(events) =~= made);
        },
        Some(id) => {
            assert(events =~= creation + seq![e1] + seq![e2] + gone);
            lemma_concat(creation + seq![e1], seq![e2]);
            lemma_concat(creation + seq![e1] + seq![e2], gone);
            assert(creations(events) =~= made.insert(Object::Buffer(BufferHandle { id })));
            assert(deletions(events) =~= made);
        },
    }
}

} // verus!
