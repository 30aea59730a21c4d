//! The logic behind the page's widgets.

pub mod home;
