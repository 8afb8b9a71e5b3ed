//! Owning handles for the buffer objects of a graphics driver, and the
//! wireframe switch.
//!
//! Nothing in this crate talks to a driver. A handle is made from a name
//! that its caller has had the driver generate, and every operation returns
//! the driver calls that it stands for, as plain [`driver::Call`] values in
//! the order in which they are to be issued. The contracts pin those calls
//! down exactly, and [`context::Context`] says what they leave bound. The
//! caller owns the graphics context and issues the calls.

pub mod context;
pub mod driver;
pub mod ibo;
pub mod object;
pub mod vao;
pub mod vbo;
pub mod wireframe;

pub use crate::ibo::IBO;
pub use crate::object::GPUObject;
pub use crate::vao::VAO;
pub use crate::vbo::VBO;
pub use crate::wireframe::{toggle_wireframe, update_wireframe};
