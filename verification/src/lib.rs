//! Compiling shaders and linking them into programs, without touching the
//! graphics driver.
//!
//! The driver belongs to whoever owns the rendering context. This crate holds
//! the decisions: which driver call comes next, what its answer means, when a
//! compilation or a link has succeeded, and which driver object must be given
//! back on a failure. The owner of the context makes each call and hands the
//! answer in.

pub mod diagnostic;
pub mod driver;
pub mod handle;
pub mod program;
pub mod shader;
pub mod source;
