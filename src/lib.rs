//! A prepend-only singly linked list of `u32` values with its length and
//! text rendering, together with small verified text-rendering helpers.

pub mod callback;
pub mod clean;
pub mod list;
pub mod password;
pub mod show;
pub mod testlib;
pub mod text;
pub mod users;
