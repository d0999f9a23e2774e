//! A text-mode display driver for a memory-mapped character grid.
//!
//! The driver keeps a cursor, writes characters with color attributes into a
//! fixed 25x80 grid of volatile cells, wraps long lines, scrolls when the grid
//! fills, and offers a lock-guarded console so that any number of callers can
//! share the one physical grid.

pub mod color;
pub mod console;
pub mod vga_buffer;
