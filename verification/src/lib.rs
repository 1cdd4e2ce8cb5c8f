//! A toolkit for GPU rendering, in two halves that share one contract: the
//! memory layout of the blocks that shaders read.
//!
//! The build-time half reads a pipeline definition ([`tokens`],
//! [`defines`], [`module_input`], [`pipeline_input`]), expands the annotated
//! blocks in the source of each stage ([`lexer`], [`annotation`],
//! [`registry`], [`bindgen`], [`matching`], [`preprocess`]), prepares the
//! requests for the shader compiler and takes its answers ([`compile`],
//! [`report`], [`pipeline`]), and hands out the kernels and the host layouts
//! of the blocks ([`layout`], [`host`], [`emit`]).
//!
//! The run-time half keeps the books of the buffers that the host writes
//! ([`buffer`]) and the order of the phases of a frame ([`frame`]).
//!
//! Nothing here touches a file, a compiler or a device: callers read the
//! files, run the compiler and map the memory, and hand over what they got.

pub mod annotation;
pub mod bindgen;
pub mod buffer;
pub mod compile;
pub mod defines;
pub mod emit;
pub mod frame;
pub mod host;
pub mod layout;
pub mod lexer;
pub mod matching;
pub mod module_input;
pub mod pipeline;
pub mod pipeline_input;
pub mod preprocess;
pub mod registry;
pub mod report;
pub mod stage;
pub mod text;
pub mod tokens;
