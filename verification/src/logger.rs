pub mod impl_console;
pub mod interface;
