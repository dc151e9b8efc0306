pub mod device;
pub mod extensions;
pub mod frame;
pub mod hmd;
pub mod ring;
pub mod surface;
pub mod window;
