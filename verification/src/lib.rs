pub mod config;
pub mod device_camera;
pub mod device_display;
pub mod device_door;
pub mod error;
pub mod image_classifier;
pub mod library;
pub mod logger;
pub mod script;
pub mod smart_door;
pub mod text;
pub mod time;
