//! Client-side logic for the ASCII line protocol of a networked amplifier:
//! the codec for commands and status frames, the framing of the byte stream,
//! and the decisions of the session that owns one connection.

pub mod controller;
pub mod polybar;
