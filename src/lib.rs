//! Photographic filters for RGBA buffers, built from a small engine of
//! verified colour adjustments and blend modes in 8-bit integer arithmetic.
pub mod channel;
pub mod blend;
pub mod pixel;
pub mod buffer;
pub mod ops;
pub mod filters;
pub mod laws;

pub use blend::BlendMode;
pub use buffer::{EngineError, Image};
pub use pixel::{Adjustment, Pixel};
pub use ops::{
    adjust, blend, blend_color_dodge, blend_darken, blend_exclusion, blend_lighten, blend_multiply,
    blend_overlay, blend_screen, blend_soft_light, brighten_by_percent, contrast, fill_with_channels,
    grayscale, huerotate, over, restore_transparency, saturate, sepia,
};
pub use filters::{
    FilterType, RustagramFilter, apply_1977, apply_aden, apply_brannan, apply_brooklyn,
    apply_clarendon, apply_earlybird, apply_gingham, apply_hudson, apply_inkwell, apply_kelvin,
    apply_lark, apply_lofi, apply_maven, apply_mayfair, apply_moon, apply_nashville, apply_reyes,
    apply_rise, apply_slumber, apply_stinson, apply_toaster, apply_valencia, apply_walden,
};
