//! The session configuration: every tunable of the pipeline in one place.

use vstd::prelude::*;

verus! {

/// The fixed parameters of one viewing session. The defaults are the values
/// the pipeline was designed around: JPEG quality 75, an 800×600 output
/// frame, a 256-colour palette, and a 100-pixel scroll step.
pub struct Config {
    /// The resource the page source loads before the first capture.
    pub target_url: String,
    /// Lossy still-image quality, 1..=100.
    pub capture_quality: u8,
    /// Output frame width in pixels.
    pub output_width: u32,
    /// Output frame height in pixels.
    pub output_height: u32,
    /// Number of colours the encoder may quantize to.
    pub palette_size: u32,
    /// Content pixels moved per arrow-key press.
    pub scroll_step: u32,
}

impl Config {
    /// A usable configuration: a non-empty target, a quality the codec
    /// accepts, a frame with area, at least two colours, and a step that
    /// actually moves.
    pub open spec fn well_formed(self) -> bool {
        &&& self.target_url@.len() > 0
        &&& 1 <= self.capture_quality <= 100
        &&& self.output_width > 0
        &&& self.output_height > 0
        &&& self.palette_size >= 2
        &&& self.scroll_step > 0
    }
}

impl Default for Config {
    /// The observed defaults of the design.
    fn default() -> (c: Config)
        ensures
            c.target_url@ == "https://ja.wikipedia.org/wiki/LISP"@,
            c.capture_quality == 75,
            c.output_width == 800,
            c.output_height == 600,
            c.palette_size == 256,
            c.scroll_step == 100,
            c.well_formed(),
    {
        proof {
            reveal_strlit("https://ja.wikipedia.org/wiki/LISP");
        }
        Config {
            target_url: "https://ja.wikipedia.org/wiki/LISP".to_owned(),
            capture_quality: 75,
            output_width: 800,
            output_height: 600,
            palette_size: 256,
            scroll_step: 100,
        }
    }
}

} // verus!
