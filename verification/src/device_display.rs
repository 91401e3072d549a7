pub mod buffer;
pub mod impl_console;
pub mod impl_fake;
pub mod impl_gui;
pub mod interface;
