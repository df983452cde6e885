//! Resource states for a GPU frame graph: how two pending uses of one buffer
//! or image combine, when they may run side by side, and when one of them
//! must run alone.

mod access;
pub mod buffer;
pub mod image;
mod layout;
mod resource;
mod stage;
mod usage;

pub use access::Access;
pub use buffer::{BufferAccess, BufferLayout, BufferUsage};
pub use image::{ImageAccess, ImageLayout, ImageUsage, SubresourceRange};
pub use layout::Layout;
pub use resource::{Buffer, Id, Image, Resource, State};
pub use stage::PipelineStage;
pub use usage::Usage;
