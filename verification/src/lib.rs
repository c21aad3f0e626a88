//! A clipboard image optimizer's core: the decisions taken between a
//! clipboard-change notification and the moment the clipboard holds a
//! compressed JPEG in place of the picture that was copied, and those of the
//! revert that puts the picture back.
//!
//! The library performs no I/O. Reading the clipboard and the image file,
//! writing the artifact and signalling the user interface are done by the
//! caller, which hands each outcome back to the [`pipeline::AppContext`] and
//! is told by an [`action::Action`] what to do next.
//!
//! - [`snapshot`]: what the clipboard held, and what in it can be processed.
//! - [`paths`] and [`formats`]: the grammar of paths and of format names.
//! - [`pixels`] and [`raster`]: pixel buffers and the two image types.
//! - [`codec`]: decoding a file's content and encoding the JPEG.
//! - [`guard`] and [`revert`]: the processing guard and the revert store.
//! - [`pipeline`] and [`action`]: the state machine and what it asks for.
//! - [`watcher`]: what the change watcher does with each event.
//! - [`laws`]: what holds of the pipeline in every state.

pub mod action;
pub mod codec;
pub mod formats;
pub mod greeting;
pub mod guard;
pub mod laws;
pub mod paths;
pub mod pipeline;
pub mod pixels;
pub mod raster;
pub mod revert;
pub mod snapshot;
pub mod watcher;
