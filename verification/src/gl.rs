//! The rendering context and the resources that live on it.
pub mod constants;
pub mod context;
pub mod device;
pub mod lifetime;
pub mod primitive;
pub mod screen;
pub mod shader;
pub mod sprite;
pub mod state;

pub use context::DefaultScreen;
pub use context::Screen;
pub use context::GL;
pub use device::Command;
pub use device::Component;
pub use device::Device;
pub use device::Event;
pub use device::Query;
pub use device::Reply;
pub use device::Transform;
pub use screen::FrameBuffer;
pub use shader::DrawArrayMode;
pub use shader::Drawable;
pub use shader::Shader;
pub use shader::VertexAttribute;
pub use primitive::ColoredSliceTriangleStrip;
pub use primitive::EphemeralPrimitive;
pub use primitive::Primitive;
pub use primitive::TriangleStrip;
pub use primitive::UVMappedSliceTriangleList;
pub use primitive::UVMappedSliceTriangleStrip;
pub use primitive::VertexAttributeArray;
pub use sprite::SpriteBatch;
pub use sprite::Sprite;
