//! Notification summaries for the Dink plugin of Old School RuneScape, and the
//! request handling of a small server that receives those notifications.

pub mod api;
pub mod fields;
pub mod logging;
pub mod notification;
pub mod server;
pub mod text;
