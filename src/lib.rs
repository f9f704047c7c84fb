pub mod driver;
pub mod input;
pub mod layout;
pub mod stencil;
