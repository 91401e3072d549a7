pub mod impl_fake;
pub mod interface;
