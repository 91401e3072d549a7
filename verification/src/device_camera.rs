pub mod impl_fake;
pub mod impl_multi;
pub mod interface;
