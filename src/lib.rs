//! Engine of a terminal grid editor over two task tables: the navigation
//! cursor, the character editor, the per-column validation rules, the
//! focus/mode coordinator and the shared filter and snapshot cache that the
//! background refreshers and the foreground loop both use.
pub mod app;
pub mod editor;
pub mod laws;
pub mod record;
pub mod shared;
pub mod validation;
pub mod width;
