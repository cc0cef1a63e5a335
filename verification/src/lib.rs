pub mod frame;
pub mod protocol;
pub mod session;
