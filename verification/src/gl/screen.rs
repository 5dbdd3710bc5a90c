//! Off-screen render targets.
use vstd::prelude::*;
use crate::error::Error;
use crate::error::ErrorKind;
use crate::gl::constants::CLAMP_TO_EDGE;
use crate::gl::constants::COLOR_ATTACHMENT0;
use crate::gl::constants::DEPTH_STENCIL;
use crate::gl::constants::DEPTH_STENCIL_ATTACHMENT;
use crate::gl::constants::FRAMEBUFFER;
use crate::gl::constants::NEAREST;
use crate::gl::constants::RENDERBUFFER;
use crate::gl::constants::RGBA32F;
use crate::gl::constants::TEXTURE_2D;
use crate::gl::constants::TEXTURE_MAG_FILTER;
use crate::gl::constants::TEXTURE_MIN_FILTER;
use crate::gl::constants::TEXTURE_WRAP_S;
use crate::gl::constants::TEXTURE_WRAP_T;
use crate::gl::context::Screen;
use crate::gl::context::GL;
use crate::gl::device::Command;
use crate::gl::device::Device;
use crate::gl::device::Event;
use crate::gl::device::FramebufferHandle;
use crate::gl::device::Query;
use crate::gl::device::RenderbufferHandle;
use crate::gl::device::Reply;
use crate::gl::device::TextureHandle;
use crate::math::rectangle::Size;

verus! {

/// An off-screen render target. It owns a framebuffer, a combined depth and
/// stencil renderbuffer, and a colour texture with four 32-bit channels.
#[derive(Debug)]
pub struct FrameBuffer {
    frame_buffer: FramebufferHandle,
    render_buffer: RenderbufferHandle,
    texture: TextureHandle,
}

/// The three objects of a render target, as a specification value.
pub struct FrameBufferView {
    pub frame_buffer: FramebufferHandle,
    pub render_buffer: RenderbufferHandle,
    pub texture: TextureHandle,
}

impl View for FrameBuffer {
    type V = FrameBufferView;

    closed spec fn view(&self) -> FrameBufferView {
        FrameBufferView {
            frame_buffer: self.frame_buffer,
            render_buffer: self.render_buffer,
            texture: self.texture,
        }
    }
}

/// What the device is told once the colour texture exists: its storage and
/// its sampling.
pub open spec fn texture_setup_events(texture: TextureHandle, size: Size) -> Seq<Event> {
    seq![
        Event::Told(Command::BindTexture { target: TEXTURE_2D, texture: Some(texture) }),
        Event::Told(
            Command::TexStorage2d {
                target: TEXTURE_2D,
                levels: 1,
                format: RGBA32F,
                width: size.w,
                height: size.h,
            },
        ),
        Event::Told(
            Command::TexParameteri {
                target: TEXTURE_2D,
                name: TEXTURE_WRAP_S,
                value: CLAMP_TO_EDGE as i32,
            },
        ),
        Event::Told(
            Command::TexParameteri {
                target: TEXTURE_2D,
                name: TEXTURE_WRAP_T,
                value: CLAMP_TO_EDGE as i32,
            },
        ),
        Event::Told(
            Command::TexParameteri {
                target: TEXTURE_2D,
                name: TEXTURE_MAG_FILTER,
                value: NEAREST as i32,
            },
        ),
        Event::Told(
            Command::TexParameteri {
                target: TEXTURE_2D,
                name: TEXTURE_MIN_FILTER,
                value: NEAREST as i32,
            },
        ),
    ]
}

/// What the device is told once all three objects exist: the renderbuffer
/// and the texture are attached to the framebuffer, which is then unbound.
pub open spec fn attachment_events(target: FrameBufferView) -> Seq<Event> {
    seq![
        Event::Told(
            Command::BindFramebuffer { target: FRAMEBUFFER, framebuffer: Some(target.frame_buffer) },
        ),
        Event::Told(
            Command::FramebufferRenderbuffer {
                target: FRAMEBUFFER,
                attachment: DEPTH_STENCIL_ATTACHMENT,
                renderbuffer_target: RENDERBUFFER,
                renderbuffer: Some(target.render_buffer),
            },
        ),
        Event::Told(
            Command::FramebufferTexture2d {
                target: FRAMEBUFFER,
                attachment: COLOR_ATTACHMENT0,
                texture_target: TEXTURE_2D,
                texture: Some(target.texture),
                level: 0,
            },
        ),
        Event::Told(Command::BindFramebuffer { target: FRAMEBUFFER, framebuffer: None }),
    ]
}

/// The conversation of `FrameBuffer::new` with a device that answers the
/// three creation queries with `render_buffer`, `texture` and `frame_buffer`.
/// The renderbuffer is bound before storage is asked for it, so that the
/// storage is its own. The conversation ends at the first answer that names
/// no object.
pub open spec fn creation_events(
    size: Size,
    render_buffer: Reply,
    texture: Reply,
    frame_buffer: Reply,
) -> Seq<Event> {
    let first = seq![Event::Asked(Query::CreateRenderbuffer, render_buffer)];
    match render_buffer.spec_object() {
        None => first,
        Some(r) => {
            let second = first + seq![
                Event::Told(
                    Command::BindRenderbuffer {
                        target: RENDERBUFFER,
                        renderbuffer: Some(RenderbufferHandle { id: r }),
                    },
                ),
                Event::Told(
                    Command::RenderbufferStorage {
                        target: RENDERBUFFER,
                        format: DEPTH_STENCIL,
                        width: size.w,
                        height: size.h,
                    },
                ),
                Event::Asked(Query::CreateTexture, texture),
            ];
            match texture.spec_object() {
                None => second,
                Some(t) => {
                    let third = second + texture_setup_events(TextureHandle { id: t }, size)
                        + seq![Event::Asked(Query::CreateFramebuffer, frame_buffer)];
                    match frame_buffer.spec_object() {
                        None => third,
                        Some(f) => third + attachment_events(
                            FrameBufferView {
                                frame_buffer: FramebufferHandle { id: f },
                                render_buffer: RenderbufferHandle { id: r },
                                texture: TextureHandle { id: t },
                            },
                        ),
                    }
                },
            }
        },
    }
}

/// Whether `result` is what `FrameBuffer::new` owes for these three answers:
/// the target made of the three objects if all were created, and else the
/// error that names the first object that was refused.
pub open spec fn creation_result(
    render_buffer: Reply,
    texture: Reply,
    frame_buffer: Reply,
    result: Result<FrameBuffer, Error>,
) -> bool {
    match result {
        Ok(target) => {
            &&& render_buffer.spec_object() == Some(target@.render_buffer.id)
            &&& texture.spec_object() == Some(target@.texture.id)
            &&& frame_buffer.spec_object() == Some(target@.frame_buffer.id)
        },
        Err(e) => {
            &&& e.spec_kind() == ErrorKind::ResourceCreation
            &&& if render_buffer.spec_object() is None {
                e.text() == "createRenderBuffer failed"@
            } else if texture.spec_object() is None {
                e.text() == "createTexture failed"@
            } else {
                frame_buffer.spec_object() is None && e.text() == "createFramebuffer failed"@
            }
        },
    }
}

/// What releasing a render target tells the device.
pub open spec fn release_events(target: FrameBufferView) -> Seq<Event> {
    seq![
        Event::Told(Command::DeleteFramebuffer(target.frame_buffer)),
        Event::Told(Command::DeleteRenderbuffer(target.render_buffer)),
        Event::Told(Command::DeleteTexture(target.texture)),
    ]
}

impl FrameBuffer {
    /// Creates an off-screen target of the given size.
    ///
    /// The renderbuffer, the texture and the framebuffer are created in that
    /// order. If the device refuses one, nothing more is asked of it and the
    /// error names the object that was refused.
    pub fn new<D: Device>(gl: &mut GL<D>, size: Size) -> (result: Result<FrameBuffer, Error>)
        ensures
            exists|render_buffer: Reply, texture: Reply, frame_buffer: Reply|
                {
                    &&& final(gl).history() == old(gl).history() + #[trigger] creation_events(
                        size,
                        render_buffer,
                        texture,
                        frame_buffer,
                    )
                    &&& creation_result(render_buffer, texture, frame_buffer, result)
                },
    {
        let ghost before = gl.history();
        let first = gl.ask(Query::CreateRenderbuffer);
        let render_buffer = match first.object() {
            Some(id) => RenderbufferHandle { id },
            None => {
                let result = Err(Error::new(ErrorKind::ResourceCreation, "createRenderBuffer failed"));
                proof {
                    assert(gl.history() =~= before + creation_events(size, first, first, first));
                    assert(creation_result(first, first, first, result));
                }
                return result;
            },
        };
        gl.tell(Command::BindRenderbuffer { target: RENDERBUFFER, renderbuffer: Some(render_buffer) });
        gl.tell(
            Command::RenderbufferStorage {
                target: RENDERBUFFER,
                format: DEPTH_STENCIL,
                width: size.w,
                height: size.h,
            },
        );
        let second = gl.ask(Query::CreateTexture);
        let texture = match second.object() {
            Some(id) => TextureHandle { id },
            None => {
                let result = Err(Error::new(ErrorKind::ResourceCreation, "createTexture failed"));
                proof {
                    assert(gl.history() =~= before + creation_events(size, first, second, second));
                    assert(creation_result(first, second, second, result));
                }
                return result;
            },
        };
        gl.tell(Command::BindTexture { target: TEXTURE_2D, texture: Some(texture) });
        gl.tell(
            Command::TexStorage2d {
                target: TEXTURE_2D,
                levels: 1,
                format: RGBA32F,
                width: size.w,
                height: size.h,
            },
        );
        gl.tell(
            Command::TexParameteri {
                target: TEXTURE_2D,
                name: TEXTURE_WRAP_S,
                value: CLAMP_TO_EDGE as i32,
            },
        );
        gl.tell(
            Command::TexParameteri {
                target: TEXTURE_2D,
                name: TEXTURE_WRAP_T,
                value: CLAMP_TO_EDGE as i32,
            },
        );
        gl.tell(
            Command::TexParameteri {
                target: TEXTURE_2D,
                name: TEXTURE_MAG_FILTER,
                value: NEAREST as i32,
            },
        );
        gl.tell(
            Command::TexParameteri {
                target: TEXTURE_2D,
                name: TEXTURE_MIN_FILTER,
                value: NEAREST as i32,
            },
        );
        let third = gl.ask(Query::CreateFramebuffer);
        let frame_buffer = match third.object() {
            Some(id) => FramebufferHandle { id },
            None => {
                let result = Err(Error::new(ErrorKind::ResourceCreation, "createFramebuffer failed"));
                proof {
                    assert(gl.history() =~= before + creation_events(size, first, second, third));
                    assert(creation_result(first, second, third, result));
                }
                return result;
            },
        };
        gl.tell(Command::BindFramebuffer { target: FRAMEBUFFER, framebuffer: Some(frame_buffer) });
        gl.tell(
            Command::FramebufferRenderbuffer {
                target: FRAMEBUFFER,
                attachment: DEPTH_STENCIL_ATTACHMENT,
                renderbuffer_target: RENDERBUFFER,
                renderbuffer: Some(render_buffer),
            },
        );
        gl.tell(
            Command::FramebufferTexture2d {
                target: FRAMEBUFFER,
                attachment: COLOR_ATTACHMENT0,
                texture_target: TEXTURE_2D,
                texture: Some(texture),
                level: 0,
            },
        );
        gl.tell(Command::BindFramebuffer { target: FRAMEBUFFER, framebuffer: None });
        let result = Ok(FrameBuffer { frame_buffer, render_buffer, texture });
        proof {
            assert(gl.history() =~= before + creation_events(size, first, second, third));
            assert(creation_result(first, second, third, result));
        }
        result
    }

    /// The colour texture that draws to this target fill.
    pub fn texture(&self) -> (t: TextureHandle)
        ensures
            t == self@.texture,
    {
        self.texture
    }

    /// Releases the framebuffer, the renderbuffer and the texture, each once.
    /// The target is gone afterwards.
    pub fn release<D: Device>(self, gl: &mut GL<D>)
        ensures
            final(gl).history() == old(gl).history() + release_events(self@),
    {
        gl.tell(Command::DeleteFramebuffer(self.frame_buffer));
        gl.tell(Command::DeleteRenderbuffer(self.render_buffer));
        gl.tell(Command::DeleteTexture(self.texture));
        assert(gl.history() =~= old(gl).history() + release_events(self@));
    }
}

impl Screen for FrameBuffer {
    open spec fn spec_frame_buffer(&self) -> Option<FramebufferHandle> {
        Some(self@.frame_buffer)
    }

    fn frame_buffer(&self) -> (fb: Option<FramebufferHandle>) {
        Some(self.frame_buffer)
    }
}

} // verus!
