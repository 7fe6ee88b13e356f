//! Verified core of the xpans audio plugins: the SPE message model, source
//! state, the render-time scheduling of spatial events, the output buffer,
//! the scene editor and exporter state machines and the monitor settings.
pub mod spe;
pub mod source;
pub mod events;
pub mod editor;
pub mod changes;
pub mod ui;
pub mod keys;
pub mod exporter;
pub mod output;
pub mod sources;
pub mod render;
pub mod monitor;
pub mod input;
