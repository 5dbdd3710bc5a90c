//! The bindings of the device: what is current after a conversation, and
//! what was current at each draw.
//!
//! The device has one current vertex array, array buffer, renderbuffer,
//! framebuffer and program, and one texture for each texture unit, of which
//! one unit is active. Whoever binds last wins. The laws of this module say
//! that every operation of the crate leaves behind the bindings it found, or
//! says which it leaves, and that a batch of sprites is drawn with one draw
//! per command, each with that command's texture on the first unit and with
//! that command's vertices.
use vstd::prelude::*;
use crate::gl::constants::ARRAY_BUFFER;
use crate::gl::constants::FRAMEBUFFER;
use crate::gl::constants::RENDERBUFFER;
use crate::gl::constants::TEXTURE0;
use crate::gl::constants::TEXTURE_2D;
use crate::gl::constants::TRIANGLES;
use crate::gl::device::BufferHandle;
use crate::gl::device::Command;
use crate::gl::device::Component;
use crate::gl::device::Event;
use crate::gl::device::FramebufferHandle;
use crate::gl::device::ProgramHandle;
use crate::gl::device::RenderbufferHandle;
use crate::gl::device::Reply;
use crate::gl::device::TextureHandle;
use crate::gl::device::Transform;
use crate::gl::device::UniformName;
use crate::gl::device::VertexArrayHandle;
use crate::gl::primitive::transfer_events;
use crate::gl::screen::attachment_events;
use crate::gl::screen::creation_events;
use crate::gl::screen::texture_setup_events;
use crate::gl::screen::FrameBufferView;
use crate::gl::shader::attribute_events;
use crate::gl::shader::draw_events;
use crate::gl::shader::enable_events;
use crate::gl::shader::slot_events;
use crate::gl::shader::uniform_events;
use crate::gl::shader::Layout;
use crate::gl::sprite::batch_events;
use crate::gl::sprite::command_events;
use crate::gl::sprite::command_layout;
use crate::gl::sprite::commands_events;
use crate::gl::sprite::sprite_components;
use crate::gl::sprite::CommandAnswers;
use crate::gl::sprite::CommandView;
use crate::gl::sprite::SpriteView;
use crate::math::rectangle::Size;

verus! {

/// What is current on the device, and what each buffer holds.
pub struct State {
    pub vertex_array: Option<VertexArrayHandle>,
    pub array_buffer: Option<BufferHandle>,
    /// The texture unit that binds of textures go to.
    pub active_unit: u32,
    /// The texture bound to each unit that has one.
    pub textures: Map<u32, TextureHandle>,
    pub renderbuffer: Option<RenderbufferHandle>,
    pub framebuffer: Option<FramebufferHandle>,
    pub program: Option<ProgramHandle>,
    pub contents: Map<BufferHandle, Seq<Component>>,
}

impl State {
    /// The state of a device of which nothing was asked yet: nothing is
    /// bound, the first texture unit is active, no program is in use, and no
    /// buffer holds anything.
    pub open spec fn unbound() -> State {
        State {
            vertex_array: None,
            array_buffer: None,
            active_unit: TEXTURE0,
            textures: Map::empty(),
            renderbuffer: None,
            framebuffer: None,
            program: None,
            contents: Map::empty(),
        }
    }

    /// The texture bound to the given unit, if there is one.
    pub open spec fn texture_on(self, unit: u32) -> Option<TextureHandle> {
        if self.textures.contains_key(unit) {
            Some(self.textures[unit])
        } else {
            None
        }
    }
}

/// One draw call: how many vertices were drawn in which mode, and what was
/// current when they were.
pub struct Draw {
    pub state: State,
    pub mode: u32,
    pub first: i32,
    pub count: i32,
}

/// The state after one more event. A bind makes its object current in place
/// of what was; a texture is bound to, or unbound from, the unit that is
/// active; an upload fills the current array buffer; nothing else touches
/// the state.
pub open spec fn step(state: State, event: Event) -> State {
    match event {
        Event::Told(Command::BindVertexArray(vertex_array)) => State { vertex_array, ..state },
        Event::Told(Command::BindBuffer { target, buffer }) => if target == ARRAY_BUFFER {
            State { array_buffer: buffer, ..state }
        } else {
            state
        },
        Event::Told(Command::ActiveTexture(active_unit)) => State { active_unit, ..state },
        Event::Told(Command::BindTexture { target, texture }) => if target == TEXTURE_2D {
            match texture {
                Some(handle) => State {
                    textures: state.textures.insert(state.active_unit, handle),
                    ..state
                },
                None => State { textures: state.textures.remove(state.active_unit), ..state },
            }
        } else {
            state
        },
        Event::Told(Command::BindRenderbuffer { target, renderbuffer }) => if target
            == RENDERBUFFER {
            State { renderbuffer, ..state }
        } else {
            state
        },
        Event::Told(Command::BindFramebuffer { target, framebuffer }) => if target == FRAMEBUFFER {
            State { framebuffer, ..state }
        } else {
            state
        },
        Event::Told(Command::UseProgram(program)) => State { program, ..state },
        Event::Uploaded { target, data, usage } => match state.array_buffer {
            Some(buffer) => if target == ARRAY_BUFFER {
                State { contents: state.contents.insert(buffer, data), ..state }
            } else {
                state
            },
            None => state,
        },
        _ => state,
    }
}

/// Whether an event leaves every state as it is and draws nothing.
pub open spec fn is_still(event: Event) -> bool {
    match event {
        Event::Told(Command::BindVertexArray(_)) => false,
        Event::Told(Command::BindBuffer { .. }) => false,
        Event::Told(Command::ActiveTexture(_)) => false,
        Event::Told(Command::BindTexture { .. }) => false,
        Event::Told(Command::BindRenderbuffer { .. }) => false,
        Event::Told(Command::BindFramebuffer { .. }) => false,
        Event::Told(Command::UseProgram(_)) => false,
        Event::Told(Command::DrawArrays { .. }) => false,
        Event::Uploaded { .. } => false,
        _ => true,
    }
}

/// Whether all events of a conversation are still.
pub open spec fn still(events: Seq<Event>) -> bool {
    forall|i: int| 0 <= i < events.len() ==> is_still(#[trigger] events[i])
}

/// The state after a conversation that began in `start`.
pub open spec fn after(start: State, events: Seq<Event>) -> State
    decreases events.len(),
{
    if events.len() == 0 {
        start
    } else {
        step(after(start, events.drop_last()), events.last())
    }
}

/// The draw calls of a conversation that began in `start`, in order, each
/// with the state in which it was made.
pub open spec fn draws(start: State, events: Seq<Event>) -> Seq<Draw>
    decreases events.len(),
{
    if events.len() == 0 {
        Seq::empty()
    } else {
        let earlier = draws(start, events.drop_last());
        match events.last() {
            Event::Told(Command::DrawArrays { mode, first, count }) => earlier.push(
                Draw { state: after(start, events.drop_last()), mode, first, count },
            ),
            _ => earlier,
        }
    }
}

/// A conversation in two parts: the second part begins in the state that
/// the first part left.
pub proof fn lemma_state_concat(start: State, first: Seq<Event>, second: Seq<Event>)
    ensures
        after(start, first + second) == after(after(start, first), second),
        draws(start, first + second) == draws(start, first) + draws(after(start, first), second),
    decreases second.len(),
{
    if second.len() == 0 {
        assert(first + second =~= first);
        assert(draws(start, first) + Seq::<Draw>::empty() =~= draws(start, first));
    } else {
        let whole = first + second;
        assert(whole.drop_last() =~= first + second.drop_last());
        assert(whole.last() == second.last());
        lemma_state_concat(start, first, second.drop_last());
        let middle = after(start, first);
        match second.last() {
            Event::Told(Command::DrawArrays { mode, first: from, count }) => {
                assert(draws(start, whole) =~= draws(start, first) + draws(middle, second));
            },
            _ => {},
        }
    }
}

/// One more event takes the state one step further.
pub proof fn lemma_state_push(start: State, events: Seq<Event>, event: Event)
    ensures
        after(start, events.push(event)) == step(after(start, events), event),
{
    assert(events.push(event).drop_last() =~= events);
}

/// A conversation of one event.
pub proof fn lemma_state_single(start: State, event: Event)
    ensures
        after(start, seq![event]) == step(start, event),
        draws(start, seq![event]) == match event {
            Event::Told(Command::DrawArrays { mode, first, count }) => seq![
                Draw { state: start, mode, first, count },
            ],
            _ => Seq::<Draw>::empty(),
        },
{
    let events = seq![event];
    assert(events.drop_last() =~= Seq::<Event>::empty());
    assert(events.last() == event);
    assert(after(start, events.drop_last()) == start);
    assert(draws(start, events.drop_last()) =~= Seq::<Draw>::empty());
    match event {
        Event::Told(Command::DrawArrays { mode, first, count }) => {
            assert(draws(start, events) =~= seq![Draw { state: start, mode, first, count }]);
        },
        _ => {},
    }
}

/// A still conversation leaves the state as it was and draws nothing.
pub proof fn lemma_still(start: State, events: Seq<Event>)
    requires
        still(events),
    ensures
        after(start, events) == start,
        draws(start, events) == Seq::<Draw>::empty(),
    decreases events.len(),
{
    if events.len() > 0 {
        assert(is_still(events[events.len() - 1]));
        assert forall|i: int| 0 <= i < events.drop_last().len() implies is_still(
            #[trigger] events.drop_last()[i],
        ) by {
            assert(events.drop_last()[i] == events[i]);
        }
        lemma_still(start, events.drop_last());
    }
}

/// Binding a render target makes it current, whatever was current before.
pub proof fn lemma_bind_replaces(start: State, target: Option<FramebufferHandle>)
    ensures
        after(
            start,
            seq![Event::Told(Command::BindFramebuffer { target: FRAMEBUFFER, framebuffer: target })],
        ) == (State { framebuffer: target, ..start }),
{
    lemma_state_single(
        start,
        Event::Told(Command::BindFramebuffer { target: FRAMEBUFFER, framebuffer: target }),
    );
}

/// A transfer leaves no vertex array bound, the buffer bound as the array
/// buffer and filled with the data, and everything else as it was.
pub proof fn lemma_transfer_state(
    start: State,
    data: Seq<Component>,
    vao: VertexArrayHandle,
    buffer: BufferHandle,
)
    ensures
        after(start, transfer_events(data, vao, buffer)) == (State {
            vertex_array: None,
            array_buffer: Some(buffer),
            contents: start.contents.insert(buffer, data),
            ..start
        }),
        draws(start, transfer_events(data, vao, buffer)) == Seq::<Draw>::empty(),
{
    let e1 = Event::Told(Command::BindVertexArray(Some(vao)));
    let e2 = Event::Told(Command::BindBuffer { target: ARRAY_BUFFER, buffer: Some(buffer) });
    let e3 = Event::Uploaded { target: ARRAY_BUFFER, data, usage: crate::gl::constants::STATIC_DRAW };
    let e4 = Event::Told(Command::BindVertexArray(None));
    let events = transfer_events(data, vao, buffer);
    assert(events =~= seq![e1] + seq![e2] + seq![e3] + seq![e4]);
    let s1 = step(start, e1);
    let s2 = step(s1, e2);
    let s3 = step(s2, e3);
    lemma_state_single(start, e1);
    lemma_state_single(s1, e2);
    lemma_state_single(s2, e3);
    lemma_state_single(s3, e4);
    lemma_state_concat(start, seq![e1], seq![e2]);
    lemma_state_concat(start, seq![e1] + seq![e2], seq![e3]);
    lemma_state_concat(start, seq![e1] + seq![e2] + seq![e3], seq![e4]);
    assert(draws(start, events) =~= Seq::<Draw>::empty());
}

/// Binding an attribute touches no binding, whatever the device answers.
pub proof fn lemma_slot_is_still(
    program: ProgramHandle,
    name: crate::gl::device::AttributeName,
    slot: Option<crate::gl::shader::VertexAttribute>,
    answer: Reply,
)
    ensures
        still(slot_events(program, name, slot, answer)),
{
    match slot {
        Some(attribute) => {
            assert(still(attribute_events(program, name, attribute, answer)));
        },
        None => {},
    }
}

/// Binding the attributes of a drawable leaves no vertex array bound and
/// everything else as it was, whatever the device answers.
pub proof fn lemma_enable_state(
    start: State,
    program: ProgramHandle,
    layout: Layout,
    position: Reply,
    color: Reply,
    texture_coordination: Reply,
)
    ensures
        after(start, enable_events(program, layout, position, color, texture_coordination)) == (State {
            vertex_array: None,
            ..start
        }),
        draws(start, enable_events(program, layout, position, color, texture_coordination))
            == Seq::<Draw>::empty(),
{
    let e1 = Event::Told(Command::BindVertexArray(Some(layout.vertex_array_object)));
    let e2 = Event::Told(Command::BindVertexArray(None));
    let a = slot_events(program, crate::gl::device::AttributeName::Position, layout.position, position);
    let b = slot_events(program, crate::gl::device::AttributeName::Color, layout.color, color);
    let c = slot_events(
        program,
        crate::gl::device::AttributeName::TextureCoord,
        layout.texture_coordination,
        texture_coordination,
    );
    let events = enable_events(program, layout, position, color, texture_coordination);
    assert(events =~= seq![e1] + a + b + c + seq![e2]);
    lemma_slot_is_still(program, crate::gl::device::AttributeName::Position, layout.position, position);
    lemma_slot_is_still(program, crate::gl::device::AttributeName::Color, layout.color, color);
    lemma_slot_is_still(
        program,
        crate::gl::device::AttributeName::TextureCoord,
        layout.texture_coordination,
        texture_coordination,
    );
    let s1 = step(start, e1);
    lemma_state_single(start, e1);
    lemma_still(s1, a);
    lemma_still(s1, b);
    lemma_still(s1, c);
    lemma_state_single(s1, e2);
    lemma_state_concat(start, seq![e1], a);
    lemma_state_concat(start, seq![e1] + a, b);
    lemma_state_concat(start, seq![e1] + a + b, c);
    lemma_state_concat(start, seq![e1] + a + b + c, seq![e2]);
    assert(draws(start, events) =~= Seq::<Draw>::empty());
}

/// A draw is one draw call, made with the drawable's vertex array bound and
/// everything else as it was. It leaves no vertex array bound.
pub proof fn lemma_draw_state(start: State, layout: Layout)
    ensures
        after(start, draw_events(layout)) == (State { vertex_array: None, ..start }),
        draws(start, draw_events(layout)) == seq![
            Draw {
                state: State { vertex_array: Some(layout.vertex_array_object), ..start },
                mode: layout.draw_array_mode.number(),
                first: 0,
                count: layout.vertex_count,
            },
        ],
{
    let e1 = Event::Told(Command::BindVertexArray(Some(layout.vertex_array_object)));
    let e2 = Event::Told(
        Command::DrawArrays {
            mode: layout.draw_array_mode.number(),
            first: 0,
            count: layout.vertex_count,
        },
    );
    let e3 = Event::Told(Command::BindVertexArray(None));
    let events = draw_events(layout);
    assert(events =~= seq![e1] + seq![e2] + seq![e3]);
    let s1 = step(start, e1);
    lemma_state_single(start, e1);
    lemma_state_single(s1, e2);
    lemma_state_single(s1, e3);
    lemma_state_concat(start, seq![e1], seq![e2]);
    lemma_state_concat(start, seq![e1] + seq![e2], seq![e3]);
    assert(draws(start, events) =~= seq![
        Draw { state: s1, mode: layout.draw_array_mode.number(), first: 0, count: layout.vertex_count },
    ]);
}

/// Setting a uniform touches no binding, whatever the device answers.
pub proof fn lemma_uniform_is_still(
    program: ProgramHandle,
    name: UniformName,
    answer: Reply,
    upload: Command,
)
    requires
        is_still(Event::Told(upload)),
    ensures
        still(uniform_events(program, name, answer, upload)),
{
}

/// The state in which a command of a batch is drawn: the renderer's vertex
/// array and program are current, the first texture unit is active and the
/// command's texture is bound to it, and the renderer's buffer holds the
/// command's vertices.
pub open spec fn command_draw_state(start: State, sprite: SpriteView, command: CommandView) -> State {
    State {
        vertex_array: Some(sprite.vao),
        array_buffer: Some(sprite.vbuf),
        active_unit: TEXTURE0,
        textures: start.textures.insert(TEXTURE0, command.texture),
        renderbuffer: start.renderbuffer,
        framebuffer: start.framebuffer,
        program: Some(sprite.shader.program),
        contents: start.contents.insert(sprite.vbuf, sprite_components(command.vertices)),
    }
}

/// The state that drawing a command of a batch leaves: no vertex array and
/// no program are current, and no texture is bound to the first unit; the
/// render target is the one that it found.
pub open spec fn command_end_state(start: State, sprite: SpriteView, command: CommandView) -> State {
    State {
        vertex_array: None,
        textures: start.textures.remove(TEXTURE0),
        program: None,
        ..command_draw_state(start, sprite, command)
    }
}

/// Drawing a command of a batch is one draw call of the command's vertices
/// as a list of triangles, made in the state `command_draw_state`; and it
/// leaves the state `command_end_state`. This holds whatever the device
/// answers.
pub proof fn lemma_command_state(
    start: State,
    sprite: SpriteView,
    command: CommandView,
    transform: Transform,
    answers: CommandAnswers,
)
    ensures
        after(start, command_events(sprite, command, transform, answers)) == command_end_state(
            start,
            sprite,
            command,
        ),
        draws(start, command_events(sprite, command, transform, answers)) == seq![
            Draw {
                state: command_draw_state(start, sprite, command),
                mode: TRIANGLES,
                first: 0,
                count: command.vertices.len() as i32,
            },
        ],
{
    let layout = command_layout(sprite, command);
    let program = sprite.shader.program;
    let p1 = transfer_events(sprite_components(command.vertices), sprite.vao, sprite.vbuf);
    let p2 = enable_events(
        program,
        layout,
        answers.position,
        answers.position,
        answers.texture_coordination,
    );
    let b1 = Event::Told(Command::ActiveTexture(TEXTURE0));
    let b2 = Event::Told(Command::BindTexture { target: TEXTURE_2D, texture: Some(command.texture) });
    let b3 = Event::Told(Command::UseProgram(Some(program)));
    let p3 = seq![b1, b2, b3];
    let up1 = Command::UniformMatrix4fv {
        location: crate::gl::shader::uniform_of(answers.transform),
        transpose: true,
        matrix: transform,
    };
    let up2 = Command::Uniform1i(crate::gl::shader::uniform_of(answers.sampler), 0);
    let p4 = uniform_events(program, UniformName::Mvp, answers.transform, up1);
    let p5 = uniform_events(program, UniformName::Texture0, answers.sampler, up2);
    let p6 = draw_events(layout);
    let c1 = Event::Told(Command::UseProgram(None));
    let c2 = Event::Told(Command::BindTexture { target: TEXTURE_2D, texture: None });
    let p7 = seq![c1, c2];
    let events = command_events(sprite, command, transform, answers);
    assert(events =~= p1 + p2 + p3 + p4 + p5 + p6 + p7);

    lemma_transfer_state(start, sprite_components(command.vertices), sprite.vao, sprite.vbuf);
    let s1 = after(start, p1);
    lemma_enable_state(
        s1,
        program,
        layout,
        answers.position,
        answers.position,
        answers.texture_coordination,
    );
    let s2 = after(s1, p2);
    assert(p3 =~= seq![b1] + seq![b2] + seq![b3]);
    lemma_state_single(s2, b1);
    let t1 = step(s2, b1);
    lemma_state_single(t1, b2);
    let t2 = step(t1, b2);
    lemma_state_single(t2, b3);
    lemma_state_concat(s2, seq![b1], seq![b2]);
    lemma_state_concat(s2, seq![b1] + seq![b2], seq![b3]);
    let s3 = after(s2, p3);
    assert(draws(s2, p3) =~= Seq::<Draw>::empty());
    lemma_uniform_is_still(program, UniformName::Mvp, answers.transform, up1);
    lemma_uniform_is_still(program, UniformName::Texture0, answers.sampler, up2);
    lemma_still(s3, p4);
    lemma_still(s3, p5);
    lemma_draw_state(s3, layout);
    let s6 = after(s3, p6);
    assert(p7 =~= seq![c1] + seq![c2]);
    lemma_state_single(s6, c1);
    lemma_state_single(step(s6, c1), c2);
    lemma_state_concat(s6, seq![c1], seq![c2]);
    assert(draws(s6, p7) =~= Seq::<Draw>::empty());

    lemma_state_concat(start, p1, p2);
    lemma_state_concat(start, p1 + p2, p3);
    lemma_state_concat(start, p1 + p2 + p3, p4);
    lemma_state_concat(start, p1 + p2 + p3 + p4, p5);
    lemma_state_concat(start, p1 + p2 + p3 + p4 + p5, p6);
    lemma_state_concat(start, p1 + p2 + p3 + p4 + p5 + p6, p7);
    let end = after(start, events);
    let expected = command_end_state(start, sprite, command);
    assert(end.textures =~= expected.textures);
    assert(end.contents =~= expected.contents);
    assert(end == expected);
    assert(after(start, p1 + p2 + p3 + p4 + p5).textures =~= command_draw_state(
        start,
        sprite,
        command,
    ).textures);
    assert(draws(start, events) =~= seq![
        Draw {
            state: command_draw_state(start, sprite, command),
            mode: TRIANGLES,
            first: 0,
            count: command.vertices.len() as i32,
        },
    ]);
}

/// The state after the first `count` commands of a batch were drawn.
pub open spec fn commands_end_state(
    start: State,
    sprite: SpriteView,
    batch: Seq<CommandView>,
    count: int,
) -> State
    decreases count,
{
    if count <= 0 {
        start
    } else {
        command_end_state(
            commands_end_state(start, sprite, batch, count - 1),
            sprite,
            batch[count - 1],
        )
    }
}

/// Drawing the first `count` commands of a batch makes `count` draw calls,
/// the i-th of them for the i-th command: with its texture bound to the
/// first texture unit, which is the active one, with its
/// vertices in the renderer's buffer and as many vertices drawn, as a list
/// of triangles, with the renderer's program and vertex array current, and
/// to the render target that was current at the start.
pub proof fn lemma_commands_state(
    start: State,
    sprite: SpriteView,
    batch: Seq<CommandView>,
    transform: Transform,
    answers: Seq<CommandAnswers>,
    count: int,
)
    requires
        0 <= count <= batch.len(),
    ensures
        after(start, commands_events(sprite, batch, transform, answers, count))
            == commands_end_state(start, sprite, batch, count),
        commands_end_state(start, sprite, batch, count).framebuffer == start.framebuffer,
        count > 0 ==> {
            let end = commands_end_state(start, sprite, batch, count);
            &&& end.program is None
            &&& end.texture_on(TEXTURE0) is None
            &&& end.active_unit == TEXTURE0
            &&& end.vertex_array is None
        },
        draws(start, commands_events(sprite, batch, transform, answers, count)).len() == count,
        forall|i: int|
            0 <= i < count ==> {
                let draw = #[trigger] draws(
                    start,
                    commands_events(sprite, batch, transform, answers, count),
                )[i];
                &&& draw.mode == TRIANGLES
                &&& draw.first == 0
                &&& draw.count == batch[i].vertices.len() as i32
                &&& draw.state.active_unit == TEXTURE0
                &&& draw.state.texture_on(TEXTURE0) == Some(batch[i].texture)
                &&& draw.state.program == Some(sprite.shader.program)
                &&& draw.state.vertex_array == Some(sprite.vao)
                &&& draw.state.array_buffer == Some(sprite.vbuf)
                &&& draw.state.contents[sprite.vbuf] == sprite_components(batch[i].vertices)
                &&& draw.state.framebuffer == start.framebuffer
            },
    decreases count,
{
    if count > 0 {
        let earlier = commands_events(sprite, batch, transform, answers, count - 1);
        let last = command_events(sprite, batch[count - 1], transform, answers[count - 1]);
        lemma_commands_state(start, sprite, batch, transform, answers, count - 1);
        let middle = after(start, earlier);
        lemma_command_state(middle, sprite, batch[count - 1], transform, answers[count - 1]);
        lemma_state_concat(start, earlier, last);
        let all = draws(start, earlier + last);
        assert(all =~= draws(start, earlier) + draws(middle, last));
        assert forall|i: int| 0 <= i < count implies {
            let draw = #[trigger] all[i];
            &&& draw.mode == TRIANGLES
            &&& draw.first == 0
            &&& draw.count == batch[i].vertices.len() as i32
            &&& draw.state.active_unit == TEXTURE0
                &&& draw.state.texture_on(TEXTURE0) == Some(batch[i].texture)
            &&& draw.state.program == Some(sprite.shader.program)
            &&& draw.state.vertex_array == Some(sprite.vao)
            &&& draw.state.array_buffer == Some(sprite.vbuf)
            &&& draw.state.contents[sprite.vbuf] == sprite_components(batch[i].vertices)
            &&& draw.state.framebuffer == start.framebuffer
        } by {
            if i < count - 1 {
                assert(all[i] == draws(start, earlier)[i]);
            } else {
                assert(all[i] == draws(middle, last)[0]);
            }
        }
    }
}

/// Drawing a batch makes one draw call for each of its commands, in their
/// order, each with that command's texture and vertices, and leaves the
/// render target as it found it.
pub proof fn lemma_batch_state(
    start: State,
    sprite: SpriteView,
    batch: Seq<CommandView>,
    transform: Transform,
    answers: Seq<CommandAnswers>,
)
    ensures
        after(start, batch_events(sprite, batch, transform, answers)).framebuffer
            == start.framebuffer,
        draws(start, batch_events(sprite, batch, transform, answers)).len() == batch.len(),
        forall|i: int|
            0 <= i < batch.len() ==> {
                let draw = #[trigger] draws(start, batch_events(sprite, batch, transform, answers))[i];
                &&& draw.mode == TRIANGLES
                &&& draw.count == batch[i].vertices.len() as i32
                &&& draw.state.active_unit == TEXTURE0
                &&& draw.state.texture_on(TEXTURE0) == Some(batch[i].texture)
                &&& draw.state.program == Some(sprite.shader.program)
                &&& draw.state.vertex_array == Some(sprite.vao)
                &&& draw.state.contents[sprite.vbuf] == sprite_components(batch[i].vertices)
                &&& draw.state.framebuffer == start.framebuffer
            },
{
    let head = seq![
        Event::Told(Command::Disable(crate::gl::constants::DEPTH_TEST)),
        Event::Told(Command::Disable(crate::gl::constants::CULL_FACE)),
    ];
    let tail = commands_events(sprite, batch, transform, answers, batch.len() as int);
    assert(still(head));
    lemma_still(start, head);
    lemma_commands_state(start, sprite, batch, transform, answers, batch.len() as int);
    lemma_state_concat(start, head, tail);
    assert(draws(start, head + tail) =~= draws(start, tail));
}

/// A render target that was created leaves the presentation surface
/// current, its renderbuffer bound, and its colour texture bound to the unit
/// that was active; and it draws nothing.
pub proof fn lemma_frame_buffer_state(
    start: State,
    size: Size,
    render_buffer: Reply,
    texture: Reply,
    frame_buffer: Reply,
)
    requires
        render_buffer.spec_object() is Some,
        texture.spec_object() is Some,
        frame_buffer.spec_object() is Some,
    ensures
        after(start, creation_events(size, render_buffer, texture, frame_buffer)) == (State {
            framebuffer: None,
            renderbuffer: Some(RenderbufferHandle { id: render_buffer.spec_object().unwrap() }),
            textures: start.textures.insert(
                start.active_unit,
                TextureHandle { id: texture.spec_object().unwrap() },
            ),
            ..start
        }),
        draws(start, creation_events(size, render_buffer, texture, frame_buffer)) == Seq::<
            Draw,
        >::empty(),
{
    let target = FrameBufferView {
        frame_buffer: FramebufferHandle { id: frame_buffer.spec_object().unwrap() },
        render_buffer: RenderbufferHandle { id: render_buffer.spec_object().unwrap() },
        texture: TextureHandle { id: texture.spec_object().unwrap() },
    };
    let events = creation_events(size, render_buffer, texture, frame_buffer);
    let setup = texture_setup_events(target.texture, size);
    let attach = attachment_events(target);
    let a1 = events.subrange(0, 1);
    let a2 = seq![events[1]];
    let a3 = events.subrange(2, 4);
    let b1 = seq![setup[0]];
    let b2 = setup.subrange(1, 6);
    let c = seq![events[10]];
    let d1 = seq![attach[0]];
    let d2 = attach.subrange(1, 3);
    let d3 = seq![attach[3]];
    assert(events =~= a1 + a2 + a3 + b1 + b2 + c + d1 + d2 + d3);
    assert(still(a1));
    assert(still(a3));
    assert(still(b2));
    assert(still(c));
    assert(still(d2));
    lemma_still(start, a1);
    lemma_state_single(start, events[1]);
    let s0 = step(start, events[1]);
    lemma_still(s0, a3);
    lemma_state_single(s0, setup[0]);
    let s1 = step(s0, setup[0]);
    lemma_still(s1, b2);
    lemma_still(s1, c);
    lemma_state_single(s1, attach[0]);
    let s2 = step(s1, attach[0]);
    lemma_still(s2, d2);
    lemma_state_single(s2, attach[3]);
    lemma_state_concat(start, a1, a2);
    lemma_state_concat(start, a1 + a2, a3);
    lemma_state_concat(start, a1 + a2 + a3, b1);
    lemma_state_concat(start, a1 + a2 + a3 + b1, b2);
    lemma_state_concat(start, a1 + a2 + a3 + b1 + b2, c);
    lemma_state_concat(start, a1 + a2 + a3 + b1 + b2 + c, d1);
    lemma_state_concat(start, a1 + a2 + a3 + b1 + b2 + c + d1, d2);
    lemma_state_concat(start, a1 + a2 + a3 + b1 + b2 + c + d1 + d2, d3);
    assert(draws(start, events) =~= Seq::<Draw>::empty());
}

} // verus!
