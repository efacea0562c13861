//! Render parameters (sample count and image size), their defaults and
//! validation, and the row-major layout of a film over the image.

use vstd::prelude::*;

verus! {

/// Samples per pixel when none is given.
pub const DEFAULT_SAMPLES: u16 = 512;

/// Image width in pixels when none is given.
pub const DEFAULT_WIDTH: u32 = 640;

/// Image height in pixels when none is given.
pub const DEFAULT_HEIGHT: u32 = 360;

/// Why a set of render parameters was rejected.
#[derive(Clone, Copy, Debug, PartialEq, Eq, Structural)]
pub enum ConfigError {
    /// The sample count is zero.
    ZeroSamples,
    /// The image width is zero.
    ZeroWidth,
    /// The image height is zero.
    ZeroHeight,
    /// The image has more pixels than a film buffer can index.
    TooManyPixels,
}

/// What a render configuration holds, as plain numbers.
pub struct ConfigView {
    pub samples: nat,
    pub width: nat,
    pub height: nat,
}

impl ConfigView {
    pub open spec fn pixel_count(self) -> nat {
        self.width * self.height
    }

    /// Position in a row-major film of the pixel at `row`, `col`.
    pub open spec fn pixel_index(self, row: nat, col: nat) -> nat {
        row * self.width + col
    }
}

/// The outcome of validating `samples`, `width` and `height`: the first
/// zero among them is an error, then an image too large to index.
pub open spec fn spec_validate(samples: nat, width: nat, height: nat) -> Result<
    ConfigView,
    ConfigError,
> {
    if samples == 0 {
        Err(ConfigError::ZeroSamples)
    } else if width == 0 {
        Err(ConfigError::ZeroWidth)
    } else if height == 0 {
        Err(ConfigError::ZeroHeight)
    } else if width * height > usize::MAX {
        Err(ConfigError::TooManyPixels)
    } else {
        Ok(ConfigView { samples, width, height })
    }
}

/// `o`'s value, or `d` when it is absent.
pub open spec fn spec_or_default<T>(o: Option<T>, d: T) -> T {
    match o {
        Some(v) => v,
        None => d,
    }
}

/// Validated render parameters: a positive sample count and a positive image
/// size whose pixel count fits a film buffer.
pub struct RenderConfig {
    samples: u16,
    width: u32,
    height: u32,
}

impl View for RenderConfig {
    type V = ConfigView;

    closed spec fn view(&self) -> ConfigView {
        ConfigView { samples: self.samples as nat, width: self.width as nat, height: self.height as nat }
    }
}

impl RenderConfig {
    #[verifier::type_invariant]
    spec fn well_formed(self) -> bool {
        &&& self.samples > 0
        &&& self.width > 0
        &&& self.height > 0
        &&& self.width * self.height <= usize::MAX
    }

    /// Checks the parameters: every one must be positive and the image's
    /// pixel count must fit a film buffer.
    pub fn new(samples: u16, width: u32, height: u32) -> (r: Result<RenderConfig, ConfigError>)
        ensures
            match r {
                Ok(c) => spec_validate(samples as nat, width as nat, height as nat) == Ok::<
                    ConfigView,
                    ConfigError,
                >(c@),
                Err(e) => spec_validate(samples as nat, width as nat, height as nat) == Err::<
                    ConfigView,
                    ConfigError,
                >(e),
            },
    {
        if samples == 0 {
            return Err(ConfigError::ZeroSamples);
        }
        if width == 0 {
            return Err(ConfigError::ZeroWidth);
        }
        if height == 0 {
            return Err(ConfigError::ZeroHeight);
        }
        proof {
            assert((width as int) * (height as int) <= u64::MAX) by (nonlinear_arith)
                requires
                    width <= u32::MAX,
                    height <= u32::MAX,
            ;
        }
        if (width as u64) * (height as u64) > usize::MAX as u64 {
            return Err(ConfigError::TooManyPixels);
        }
        Ok(RenderConfig { samples, width, height })
    }

    /// As `new`, with each absent parameter taken from its default.
    pub fn from_options(samples: Option<u16>, width: Option<u32>, height: Option<u32>) -> (r: Result<
        RenderConfig,
        ConfigError,
    >)
        ensures
            ({
                let s = spec_or_default(samples, DEFAULT_SAMPLES) as nat;
                let w = spec_or_default(width, DEFAULT_WIDTH) as nat;
                let h = spec_or_default(height, DEFAULT_HEIGHT) as nat;
                match r {
                    Ok(c) => spec_validate(s, w, h) == Ok::<ConfigView, ConfigError>(c@),
                    Err(e) => spec_validate(s, w, h) == Err::<ConfigView, ConfigError>(e),
                }
            }),
    {
        let s: u16 = match samples {
            Some(v) => v,
            None => DEFAULT_SAMPLES,
        };
        let w: u32 = match width {
            Some(v) => v,
            None => DEFAULT_WIDTH,
        };
        let h: u32 = match height {
            Some(v) => v,
            None => DEFAULT_HEIGHT,
        };
        RenderConfig::new(s, w, h)
    }

    pub fn samples(&self) -> (r: u16)
        ensures
            r == self@.samples,
            r > 0,
    {
        proof {
            use_type_invariant(self);
        }
        self.samples
    }

    pub fn width(&self) -> (r: u32)
        ensures
            r == self@.width,
            r > 0,
    {
        proof {
            use_type_invariant(self);
        }
        self.width
    }

    pub fn height(&self) -> (r: u32)
        ensures
            r == self@.height,
            r > 0,
    {
        proof {
            use_type_invariant(self);
        }
        self.height
    }

    /// Number of pixels, which is the length of a complete film.
    pub fn pixel_count(&self) -> (r: usize)
        ensures
            r == self@.pixel_count(),
    {
        proof {
            use_type_invariant(self);
        }
        (self.width as usize) * (self.height as usize)
    }

    /// Position in a row-major film of the pixel at `row`, `col`. Distinct
    /// pixels have distinct positions, all below the pixel count.
    pub fn pixel_index(&self, row: u32, col: u32) -> (r: usize)
        requires
            row < self@.height,
            col < self@.width,
        ensures
            r == self@.pixel_index(row as nat, col as nat),
            r < self@.pixel_count(),
            r as int / (self@.width as int) == row,
            r as int % (self@.width as int) == col,
    {
        proof {
            use_type_invariant(self);
            let w = self.width as int;
            let h = self.height as int;
            assert(row * w + col < h * w) by (nonlinear_arith)
                requires
                    0 <= row < h,
                    0 <= col < w,
            ;
            assert(w * h == h * w) by (nonlinear_arith);
            assert((row * w + col) / w == row && (row * w + col) % w == col) by (nonlinear_arith)
                requires
                    0 <= row,
                    0 <= col < w,
            ;
        }
        (row as usize) * (self.width as usize) + (col as usize)
    }

    /// Signed offset of image row `row` from the middle row `height / 2`,
    /// which places the row on the camera's image plane.
    pub fn row_offset(&self, row: u32) -> (r: i64)
        ensures
            r == row as int - (self@.height as int) / 2,
    {
        (row as i64) - ((self.height / 2) as i64)
    }
}

} // verus!
