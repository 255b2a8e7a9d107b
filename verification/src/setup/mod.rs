//! What the application sets up once and hands to every handler.
pub mod state;
