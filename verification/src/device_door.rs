pub mod impl_fake;
pub mod impl_raspberry_pi_relay;
pub mod interface;
