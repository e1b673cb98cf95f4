use vstd::prelude::*;

verus! {

/// Opaque selector for a two-color palette simulating a monochrome display.
///
/// The interpretation of each variant (its palette) belongs to the rendering
/// collaborator; this crate only stores and hands the value through.
#[derive(Debug, PartialEq, Eq, Clone, Copy, Structural)]
pub enum BinaryColorTheme {
    /// No theme: colors pass through unchanged.
    NoTheme,
    /// Simulates an LCD with dark pixels on a white background.
    LcdWhite,
    /// Simulates an LCD with dark pixels on a green background.
    LcdGreen,
    /// Simulates an LCD with dark pixels on a blue background.
    LcdBlue,
    /// Simulates an OLED with white pixels on a black background.
    OledWhite,
    /// Simulates an OLED with blue pixels on a black background.
    OledBlue,
}

} // verus!
