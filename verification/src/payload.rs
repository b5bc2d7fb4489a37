//! What goes into a message: its timestamp, its template, its status field.
pub mod clock;
pub mod profiles;
pub mod template;
