//! The context: the one owner of the device, through which every request goes.
use vstd::prelude::*;
use crate::error::Error;
use crate::error::ErrorKind;
use crate::gl::constants::COLOR_BUFFER_BIT;
use crate::gl::constants::DEPTH_BUFFER_BIT;
use crate::gl::constants::FRAMEBUFFER;
use crate::gl::constants::STENCIL_BUFFER_BIT;
use crate::gl::device::Command;
use crate::gl::device::Component;
use crate::gl::device::Device;
use crate::gl::device::Event;
use crate::gl::device::FramebufferHandle;
use crate::gl::device::ProgramHandle;
use crate::gl::device::Query;
use crate::gl::device::Reply;
use crate::gl::device::ShaderHandle;
use crate::gl::state::after;
use crate::gl::state::lemma_state_push;
use crate::gl::state::State;
use crate::math::rectangle::Size;
use crate::math::scalar::Scalar;
use crate::math::vector::Vector4;

verus! {

/// A destination of draw operations.
pub trait Screen {
    /// The framebuffer behind this screen, as a specification value.
    spec fn spec_frame_buffer(&self) -> Option<FramebufferHandle>;

    /// The framebuffer behind this screen; none for the presentation surface.
    fn frame_buffer(&self) -> (fb: Option<FramebufferHandle>)
        ensures
            fb == self.spec_frame_buffer(),
    ;
}

/// The presentation surface. It owns nothing on the device.
#[derive(Debug, Clone, Copy, PartialEq, Eq, Structural)]
pub struct DefaultScreen {}

impl Screen for DefaultScreen {
    open spec fn spec_frame_buffer(&self) -> Option<FramebufferHandle> {
        None
    }

    fn frame_buffer(&self) -> (fb: Option<FramebufferHandle>) {
        None
    }
}

/// What the context keeps track of: the program in use, and, for the sake of
/// contracts, every request that went through it and every answer that came
/// back.
struct Tracker {
    program: Option<ProgramHandle>,
    history: Ghost<Seq<Event>>,
}

/// The rendering context. It owns the device, and every request to the
/// device goes through it.
pub struct GL<D> {
    device: D,
    screen: DefaultScreen,
    tracker: Tracker,
}

impl Tracker {
    /// The program that the tracker believes to be in use is the one that
    /// the history leaves in use.
    #[verifier::type_invariant]
    spec fn tracks_the_program(&self) -> bool {
        self.program == after(State::unbound(), self.history@).program
    }

    /// A tracker of a device of which nothing was asked yet.
    fn new() -> (tracker: Tracker)
        ensures
            tracker.history@ == Seq::<Event>::empty(),
    {
        Tracker { program: None, history: Ghost(Seq::empty()) }
    }

    /// The program in use.
    fn program(&self) -> (program: Option<ProgramHandle>)
        ensures
            program == after(State::unbound(), self.history@).program,
    {
        proof {
            use_type_invariant(self);
        }
        self.program
    }

    /// Notes that a command was given.
    fn told(&mut self, command: Command)
        ensures
            final(self).history@ == old(self).history@.push(Event::Told(command)),
    {
        proof {
            use_type_invariant(&*self);
            lemma_state_push(State::unbound(), self.history@, Event::Told(command));
        }
        let program = match command {
            Command::UseProgram(program) => program,
            _ => self.program,
        };
        *self = Tracker { program, history: Ghost(self.history@.push(Event::Told(command))) };
    }

    /// Notes an event that is not a command.
    fn noted(&mut self, event: Ghost<Event>)
        requires
            !(event@ is Told),
        ensures
            final(self).history@ == old(self).history@.push(event@),
    {
        proof {
            use_type_invariant(&*self);
            lemma_state_push(State::unbound(), self.history@, event@);
        }
        *self = Tracker { program: self.program, history: Ghost(self.history@.push(event@)) };
    }
}

impl<D: Device> GL<D> {
    /// Everything asked of the device through this context, oldest first.
    pub closed spec fn history(&self) -> Seq<Event> {
        self.tracker.history@
    }

    /// What is current on the device after all that was asked of it.
    pub open spec fn state(&self) -> State {
        after(State::unbound(), self.history())
    }

    /// A context on the given device. The device must be fresh: nothing is
    /// bound on it, its first texture unit is active and no program is in
    /// use.
    pub fn new(device: D) -> (gl: Self)
        ensures
            gl.history() == Seq::<Event>::empty(),
            gl.device() == device,
    {
        GL { device, screen: DefaultScreen {  }, tracker: Tracker::new() }
    }

    /// The program that is in use, if any.
    pub fn program_in_use(&self) -> (program: Option<ProgramHandle>)
        ensures
            program == self.state().program,
    {
        self.tracker.program()
    }

    /// The device behind this context, as a specification value.
    pub closed spec fn device(&self) -> D {
        self.device
    }

    /// The device behind this context.
    pub fn context(&self) -> (device: &D)
        ensures
            *device == self.device(),
    {
        &self.device
    }

    /// Gives the device back and ends the context.
    pub fn into_device(self) -> (device: D)
        ensures
            device == self.device(),
    {
        self.device
    }

    /// Gives the device a command.
    pub fn tell(&mut self, command: Command)
        ensures
            final(self).history() == old(self).history().push(Event::Told(command)),
    {
        self.device.tell(command);
        self.tracker.told(command);
    }

    /// Puts a query to the device and hands back its answer.
    pub fn ask(&mut self, query: Query) -> (reply: Reply)
        ensures
            final(self).history() == old(self).history().push(Event::Asked(query, reply)),
    {
        let reply = self.device.ask(query);
        self.tracker.noted(Ghost(Event::Asked(query, reply)));
        reply
    }

    /// Stores `data` in the buffer bound to `target`.
    pub fn buffer_data(&mut self, target: u32, data: &Vec<Component>, usage: u32)
        ensures
            final(self).history() == old(self).history().push(
                Event::Uploaded { target, data: data@, usage },
            ),
    {
        self.device.buffer_data(target, data.as_slice(), usage);
        self.tracker.noted(Ghost(Event::Uploaded { target, data: data@, usage }));
    }

    /// Makes `source` the source text of `shader`.
    pub fn shader_source(&mut self, shader: ShaderHandle, source: &str)
        ensures
            final(self).history() == old(self).history().push(
                Event::Sourced { shader, source: source@ },
            ),
    {
        self.device.shader_source(shader, source);
        self.tracker.noted(Ghost(Event::Sourced { shader, source: source@ }));
    }

    /// Asks the device for the extension of the given name.
    pub fn get_extension(&mut self, name: &str) -> (reply: Reply)
        ensures
            final(self).history() == old(self).history().push(
                Event::Probed { name: name@, reply },
            ),
    {
        let reply = self.device.get_extension(name);
        self.tracker.noted(Ghost(Event::Probed { name: name@, reply }));
        reply
    }

    /// Whether `result` is what `ensure_extension` owes for the device's
    /// answer: success if the device has the extension; the text of the
    /// failure if the request failed; and else the name followed by
    /// " is disabled".
    pub open spec fn extension_result(name: Seq<char>, reply: Reply, result: Result<(), Error>) -> bool {
        match result {
            Ok(_) => reply.spec_flag(),
            Err(e) => {
                &&& !reply.spec_flag()
                &&& e.spec_kind() == ErrorKind::Other
                &&& e.text() == match reply.spec_text() {
                    Some(failure) => failure,
                    None => name + " is disabled"@,
                }
            },
        }
    }

    /// Makes sure that the device has the extension of the given name.
    pub fn ensure_extension(&mut self, name: &str) -> (result: Result<(), Error>)
        ensures
            exists|reply: Reply|
                {
                    &&& final(self).history() == old(self).history().push(
                        Event::Probed { name: name@, reply },
                    )
                    &&& #[trigger] Self::extension_result(name@, reply, result)
                },
    {
        let reply = self.get_extension(name);
        let ghost answer = reply;
        let result = if reply.flag() {
            Ok(())
        } else {
            match reply.text() {
                Some(failure) => Err(Error::with_message(ErrorKind::Other, failure)),
                None => Err(
                    Error::with_message(
                        ErrorKind::Other,
                        String::from_str(name).concat(" is disabled"),
                    ),
                ),
            }
        };
        assert(Self::extension_result(name@, answer, result));
        result
    }

    /// What `clear` asks of the device.
    pub open spec fn clear_events(color: Vector4) -> Seq<Event> {
        seq![
            Event::Told(Command::ClearColor(color)),
            Event::Told(Command::Clear(COLOR_BUFFER_BIT)),
        ]
    }

    /// Fills the colour buffer of the bound target with `color`.
    pub fn clear(&mut self, color: Vector4)
        ensures
            final(self).history() == old(self).history() + Self::clear_events(color),
    {
        self.tell(Command::ClearColor(color));
        self.tell(Command::Clear(COLOR_BUFFER_BIT));
        assert(self.history() =~= old(self).history() + Self::clear_events(color));
    }

    /// What `clear_stencil` asks of the device.
    pub open spec fn clear_stencil_events(stencil: i32) -> Seq<Event> {
        seq![
            Event::Told(Command::ClearStencil(stencil)),
            Event::Told(Command::Clear(STENCIL_BUFFER_BIT)),
        ]
    }

    /// Fills the stencil buffer of the bound target with `stencil`.
    pub fn clear_stencil(&mut self, stencil: i32)
        ensures
            final(self).history() == old(self).history() + Self::clear_stencil_events(stencil),
    {
        self.tell(Command::ClearStencil(stencil));
        self.tell(Command::Clear(STENCIL_BUFFER_BIT));
        assert(self.history() =~= old(self).history() + Self::clear_stencil_events(stencil));
    }

    /// What `clear_depth` asks of the device.
    pub open spec fn clear_depth_events(depth: Scalar) -> Seq<Event> {
        seq![
            Event::Told(Command::ClearDepth(depth)),
            Event::Told(Command::Clear(DEPTH_BUFFER_BIT)),
        ]
    }

    /// Fills the depth buffer of the bound target with `depth`.
    pub fn clear_depth(&mut self, depth: Scalar)
        ensures
            final(self).history() == old(self).history() + Self::clear_depth_events(depth),
    {
        self.tell(Command::ClearDepth(depth));
        self.tell(Command::Clear(DEPTH_BUFFER_BIT));
        assert(self.history() =~= old(self).history() + Self::clear_depth_events(depth));
    }

    /// The size that the device's answer stands for.
    pub open spec fn size_of(reply: Reply) -> Size {
        Size { w: reply.spec_extent().0 as i32, h: reply.spec_extent().1 as i32 }
    }

    /// The size of the presentation surface, as the device reports it.
    pub fn screen_size(&mut self) -> (size: Size)
        ensures
            exists|reply: Reply|
                {
                    &&& final(self).history() == old(self).history().push(
                        Event::Asked(Query::CanvasSize, reply),
                    )
                    &&& size == #[trigger] Self::size_of(reply)
                },
    {
        let reply = self.ask(Query::CanvasSize);
        let (width, height) = reply.extent();
        let size = Size { w: #[verifier::truncate] (width as i32), h: #[verifier::truncate] (height as i32) };
        assert(size == Self::size_of(reply));
        size
    }

    /// The presentation surface.
    pub fn screen(&self) -> (s: &DefaultScreen)
        ensures
            s.spec_frame_buffer() is None,
    {
        &self.screen
    }

    /// Makes `screen` the target of the clears and draws that follow. The
    /// target that was current before is replaced.
    pub fn bind_framebuffer<S: Screen>(&mut self, screen: &S)
        ensures
            final(self).history() == old(self).history().push(
                Event::Told(
                    Command::BindFramebuffer {
                        target: FRAMEBUFFER,
                        framebuffer: screen.spec_frame_buffer(),
                    },
                ),
            ),
            final(self).state() == (State {
                framebuffer: screen.spec_frame_buffer(),
                ..old(self).state()
            }),
    {
        let framebuffer = screen.frame_buffer();
        self.tell(Command::BindFramebuffer { target: FRAMEBUFFER, framebuffer });
        proof {
            lemma_state_push(
                State::unbound(),
                old(self).history(),
                Event::Told(Command::BindFramebuffer { target: FRAMEBUFFER, framebuffer }),
            );
        }
    }
}

} // verus!
