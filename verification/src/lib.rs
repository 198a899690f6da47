//! Configuration of a kernel build.
//!
//! A build manifest is resolved for one target, platform and profile into the
//! defines that drive the native build of the kernel and into the header
//! search path of the binding generator. The cache that the native build
//! leaves behind is then read back into a module of typed constants and a set
//! of feature toggles.
//!
//! The stages, in the order in which a build runs them:
//!
//! - [`resolve`] reads target, platform and options out of the manifest;
//! - [`define`] translates options into defines;
//! - [`headers`] derives the header search path;
//! - [`cache`] ingests the cache of the native build;
//! - [`emit`] renders the module of constants and the lines for the host build.
//!
//! [`pipeline`] runs the stages that come before the native build, and
//! [`laws`] states what holds of the stages together.

pub mod arch;
pub mod cache;
pub mod casing;
pub mod cstr;
pub mod debug_out;
pub mod define;
pub mod emit;
pub mod entry;
pub mod error;
pub mod headers;
pub mod laws;
pub mod manifest;
pub mod pipeline;
pub mod resolve;
pub mod static_heap;
pub mod text;

pub use crate::cstr::{stpcpy, strcpy};
pub use crate::debug_out::DebugOutHandle;
pub use crate::emit::process_cmake_cache;
pub use crate::static_heap::StaticAlloc;
