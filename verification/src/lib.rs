//! Configuration for rendering a simulated pixel display.
//!
//! The crate centers on two types: [`output_settings::OutputSettingsBuilder`],
//! which collects per-pixel magnification, inter-pixel spacing and a color
//! theme with validation and mutually consistent defaulting, and
//! [`output_settings::OutputSettings`], the immutable resolved configuration.
//! The settings value derives the pixel pitch (the output-space distance
//! between adjacent logical pixels) and the mapping from output-surface
//! coordinates back to logical pixel coordinates.

/// Plain 2-D value types used by the settings.
pub mod geometry;
/// The settings value and its builder.
pub mod output_settings;
/// The binary color theme selector.
pub mod theme;
