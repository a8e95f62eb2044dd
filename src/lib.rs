//! Setting the desktop wallpaper on every monitor, or on the monitor under
//! the cursor, as a verified sequence of decisions around the platform's
//! wallpaper service.

pub mod device_id;
pub mod laws;
pub mod mode;
pub mod request;
