use crate::geometry::{Point, Size};
use crate::theme::BinaryColorTheme;
use vstd::prelude::*;

verus! {

/// Error raised when a configuration call is given an invalid value, such as
/// a scale with a zero component. It aborts the configuration call; nothing
/// is clamped or substituted.
#[derive(Debug, PartialEq, Eq, Clone, Copy, Structural)]
pub struct InvalidArgument;

/// Immutable, resolved output settings.
#[derive(Debug, PartialEq, Eq, Clone, Copy, Structural)]
pub struct OutputSettings {
    /// Pixel scale, allowing for non-square pixels. Both components are
    /// positive in every built value.
    pub scale: Size,
    /// Spacing between pixels, in output-surface units.
    pub pixel_spacing: u32,
    /// Binary color theme.
    pub theme: BinaryColorTheme,
}

impl OutputSettings {
    /// Both scale components are positive; every built value satisfies this.
    pub open spec fn wf(self) -> bool {
        self.scale.width > 0 && self.scale.height > 0
    }

    /// Horizontal distance between the origins of two adjacent logical
    /// pixels, in output-surface units.
    pub open spec fn pitch_w(self) -> int {
        self.scale.width + self.pixel_spacing
    }

    /// Vertical distance between the origins of two adjacent logical pixels,
    /// in output-surface units.
    pub open spec fn pitch_h(self) -> int {
        self.scale.height + self.pixel_spacing
    }

    /// Both pitch components fit in the coordinate type.
    pub open spec fn pitch_fits(self) -> bool {
        self.pitch_w() <= i32::MAX && self.pitch_h() <= i32::MAX
    }

    /// Returns the pixel pitch `(scale.width + pixel_spacing,
    /// scale.height + pixel_spacing)`.
    pub fn pixel_pitch(&self) -> (r: Point)
        requires
            self.pitch_fits(),
        ensures
            r.x == self.pitch_w(),
            r.y == self.pitch_h(),
    {
        Point::new(
            (self.scale.width + self.pixel_spacing) as i32,
            (self.scale.height + self.pixel_spacing) as i32,
        )
    }

    /// Translates an output-surface coordinate to the logical display
    /// coordinate of the pixel it falls within, by element-wise truncating
    /// division by the pixel pitch.
    ///
    /// Only non-negative coordinates are specified; the mapping of negative
    /// coordinates is deliberately left out of the contract.
    pub fn output_to_display(&self, output_point: Point) -> (r: Point)
        requires
            self.wf(),
            self.pitch_fits(),
            output_point.x >= 0,
            output_point.y >= 0,
        ensures
            r.x == output_point.x as int / self.pitch_w(),
            r.y == output_point.y as int / self.pitch_h(),
    {
        output_point.component_div(self.pixel_pitch())
    }
}

impl Default for OutputSettings {
    /// Equivalent to building a fresh builder: scale `(1, 1)`, spacing `0`,
    /// no theme.
    fn default() -> (r: Self)
        ensures
            r == OutputSettingsBuilder::spec_new().spec_build(),
    {
        OutputSettingsBuilder::new().build()
    }
}

/// Output settings builder: accumulates optional configuration choices and
/// produces an [`OutputSettings`] on [`build`](OutputSettingsBuilder::build).
pub struct OutputSettingsBuilder {
    /// Chosen scale; `None` until set explicitly or defaulted by a theme.
    pub scale: Option<Size>,
    /// Chosen spacing; `None` until set explicitly or defaulted by a theme.
    pub pixel_spacing: Option<u32>,
    /// Chosen theme; no theme until set.
    pub theme: BinaryColorTheme,
}

impl OutputSettingsBuilder {
    /// A chosen scale, if any, has positive components.
    pub open spec fn wf(self) -> bool {
        self.scale matches Some(s) ==> s.width > 0 && s.height > 0
    }

    /// State of a fresh builder: nothing chosen, no theme.
    pub open spec fn spec_new() -> Self {
        OutputSettingsBuilder { scale: None, pixel_spacing: None, theme: BinaryColorTheme::NoTheme }
    }

    /// State after choosing the uniform scale `(scale, scale)`.
    pub open spec fn spec_scale(self, scale: u32) -> Self {
        OutputSettingsBuilder { scale: Some(Size { width: scale, height: scale }), ..self }
    }

    /// State after choosing a non-square scale.
    pub open spec fn spec_scale_non_square(self, scale: Size) -> Self {
        OutputSettingsBuilder { scale: Some(scale), ..self }
    }

    /// State after choosing a theme: the theme is replaced, and a scale or
    /// spacing that is still unset is defaulted to `(3, 3)` or `1`; one that
    /// is already set is left untouched.
    pub open spec fn spec_theme(self, theme: BinaryColorTheme) -> Self {
        OutputSettingsBuilder {
            scale: if self.scale is Some {
                self.scale
            } else {
                Some(Size { width: 3, height: 3 })
            },
            pixel_spacing: if self.pixel_spacing is Some {
                self.pixel_spacing
            } else {
                Some(1u32)
            },
            theme,
        }
    }

    /// State after choosing a pixel spacing.
    pub open spec fn spec_pixel_spacing(self, pixel_spacing: u32) -> Self {
        OutputSettingsBuilder { pixel_spacing: Some(pixel_spacing), ..self }
    }

    /// The settings a builder resolves to: an unset scale becomes `(1, 1)`,
    /// an unset spacing becomes `0`.
    pub open spec fn spec_build(self) -> OutputSettings {
        OutputSettings {
            scale: match self.scale {
                Some(s) => s,
                None => Size { width: 1, height: 1 },
            },
            pixel_spacing: match self.pixel_spacing {
                Some(s) => s,
                None => 0u32,
            },
            theme: self.theme,
        }
    }

    /// Creates a new output settings builder with nothing chosen.
    pub fn new() -> (r: Self)
        ensures
            r == Self::spec_new(),
            r.wf(),
    {
        OutputSettingsBuilder { scale: None, pixel_spacing: None, theme: BinaryColorTheme::NoTheme }
    }

    /// Sets the pixel scale to `(scale, scale)`.
    ///
    /// A scale of `2` or higher is useful for viewing the simulated display
    /// on high DPI screens. A scale of `0` is invalid and rejected.
    pub fn scale(self, scale: u32) -> (r: Result<Self, InvalidArgument>)
        ensures
            scale > 0 ==> r == Ok::<Self, InvalidArgument>(self.spec_scale(scale)),
            scale == 0 ==> r == Err::<Self, InvalidArgument>(InvalidArgument),
            r matches Ok(b) ==> b.wf(),
    {
        if scale == 0 {
            Err(InvalidArgument)
        } else {
            Ok(OutputSettingsBuilder { scale: Some(Size::new(scale, scale)), ..self })
        }
    }

    /// Sets a non-square pixel scale, for simulating a display with a
    /// non-square pixel aspect ratio.
    ///
    /// A zero `width` or `height` is invalid and rejected.
    pub fn scale_non_square(self, scale: Size) -> (r: Result<Self, InvalidArgument>)
        ensures
            scale.width > 0 && scale.height > 0 ==> r == Ok::<Self, InvalidArgument>(
                self.spec_scale_non_square(scale),
            ),
            scale.width == 0 || scale.height == 0 ==> r == Err::<Self, InvalidArgument>(
                InvalidArgument,
            ),
            r matches Ok(b) ==> b.wf(),
    {
        if scale.width == 0 || scale.height == 0 {
            Err(InvalidArgument)
        } else {
            Ok(OutputSettingsBuilder { scale: Some(scale), ..self })
        }
    }

    /// Sets the binary color theme.
    ///
    /// Monochrome displays have pixels too small to distinguish at a 1:1
    /// scale with no gap, so choosing a theme also defaults a still-unset
    /// scale to `(3, 3)` and a still-unset spacing to `1`. A scale or spacing
    /// that was already chosen, explicitly or by an earlier theme call, is
    /// never overridden.
    pub fn theme(self, theme: BinaryColorTheme) -> (r: Self)
        ensures
            r == self.spec_theme(theme),
            self.wf() ==> r.wf(),
    {
        let scale: Option<Size> = if self.scale.is_some() {
            self.scale
        } else {
            Some(Size::new_equal(3))
        };
        let pixel_spacing: Option<u32> = if self.pixel_spacing.is_some() {
            self.pixel_spacing
        } else {
            Some(1u32)
        };
        OutputSettingsBuilder { scale, pixel_spacing, theme }
    }

    /// Sets the gap between pixels, in output-surface units; `0` means no
    /// visible gap.
    pub fn pixel_spacing(self, pixel_spacing: u32) -> (r: Self)
        ensures
            r == self.spec_pixel_spacing(pixel_spacing),
            self.wf() ==> r.wf(),
    {
        OutputSettingsBuilder { pixel_spacing: Some(pixel_spacing), ..self }
    }

    /// Builds the output settings, resolving an unset scale to `(1, 1)` and
    /// an unset spacing to `0`. Always succeeds.
    pub fn build(self) -> (r: OutputSettings)
        ensures
            r == self.spec_build(),
            self.wf() ==> r.wf(),
    {
        OutputSettings {
            scale: match self.scale {
                Some(s) => s,
                None => Size::new_equal(1),
            },
            pixel_spacing: match self.pixel_spacing {
                Some(s) => s,
                None => 0u32,
            },
            theme: self.theme,
        }
    }
}

/// For every positive factor, building after choosing that uniform scale
/// yields a settings value whose scale is that factor in both dimensions.
pub proof fn lemma_uniform_scale_build(factor: u32)
    requires
        factor > 0,
    ensures
        OutputSettingsBuilder::spec_new().spec_scale(factor).spec_build().scale == (Size {
            width: factor,
            height: factor,
        }),
{
}

/// Choosing a theme on a fresh builder defaults the scale to `(3, 3)` and
/// the spacing to `1`, and keeps the chosen theme, whichever theme it is.
pub proof fn lemma_theme_defaults(theme: BinaryColorTheme)
    ensures
        OutputSettingsBuilder::spec_new().spec_theme(theme).spec_build() == (OutputSettings {
            scale: Size { width: 3, height: 3 },
            pixel_spacing: 1,
            theme,
        }),
{
}

/// A theme call never overrides a scale or spacing that is already set,
/// whether it was set explicitly or by an earlier theme call.
pub proof fn lemma_theme_keeps_choices(b: OutputSettingsBuilder, theme: BinaryColorTheme)
    ensures
        b.scale is Some ==> b.spec_theme(theme).scale == b.scale,
        b.pixel_spacing is Some ==> b.spec_theme(theme).pixel_spacing == b.pixel_spacing,
{
}

/// An explicit uniform scale chosen before a theme call survives it.
pub proof fn lemma_scale_then_theme(factor: u32, theme: BinaryColorTheme)
    requires
        factor > 0,
    ensures
        OutputSettingsBuilder::spec_new().spec_scale(factor).spec_theme(theme).spec_build().scale
            == (Size { width: factor, height: factor }),
{
}

/// An explicitly chosen pixel spacing ends up in the built settings whether
/// it is chosen before or after a theme call.
pub proof fn lemma_spacing_theme_order(spacing: u32, theme: BinaryColorTheme)
    ensures
        OutputSettingsBuilder::spec_new().spec_pixel_spacing(spacing).spec_theme(
            theme,
        ).spec_build().pixel_spacing == spacing,
        OutputSettingsBuilder::spec_new().spec_theme(theme).spec_pixel_spacing(
            spacing,
        ).spec_build().pixel_spacing == spacing,
{
}

/// Building is a function of the builder state alone: equal builders build
/// equal settings, so identical configuration sequences compare equal.
pub proof fn lemma_build_deterministic(a: OutputSettingsBuilder, b: OutputSettingsBuilder)
    requires
        a == b,
    ensures
        a.spec_build() == b.spec_build(),
{
}

} // verus!
