//! Safe ownership layer over an RGB LED-panel driver: panel and runtime
//! configuration, the matrix resource with its double-buffered canvases,
//! bitmap fonts, and color conversions.
//!
//! The driver is reached through the `Driver` trait, whose contracts model
//! the driver's state. `HostStub` is the driver of a host without LED
//! hardware; `SimulatedPanel` keeps its surfaces in memory and reads them
//! back.

mod canvas;
mod color;
mod driver;
mod error;
mod font;
mod matrix;
mod options;
mod sim;
mod stub;
mod text;

pub use crate::canvas::LedCanvas;
pub use crate::color::{
    bgr555_channels, bgr565_channels, bgr888_channels, gray2_luma, gray4_luma, gray8_luma,
    rgb555_channels, rgb565_channels, rgb888_channels, bit_color, lemma_narrow_then_widen, lemma_widen_factors, lemma_widen_then_narrow, narrow,
    widen, widen_factor, LedColor,
};
pub use crate::driver::{
    black, on_surface, painted, same_display, same_layout, same_pixels, same_pixels_except,
    CLedCanvas, CLedFont, CLedMatrix, Driver,
};
pub use crate::error::{ConfigField, LedError};
pub use crate::font::LedFont;
pub use crate::matrix::{
    lemma_swap_twice, options_or_default, runtime_options_or_default, swapped, LedMatrix,
};
pub use crate::options::{
    default_options, default_runtime_options, lemma_string_set_twice, LedMatrixOptions,
    LedRuntimeOptions, OptionsView, RuntimeOptionsView, MAX_BRIGHTNESS, MAX_PWM_BITS,
    MIN_BRIGHTNESS,
};
pub use crate::sim::{
    lemma_default_panel, panel_height, panel_width, pixel_index, SimulatedPanel, SIM_MAX_PIXELS,
};
pub use crate::stub::HostStub;
pub use crate::text::{is_nul_free, nul_free};
