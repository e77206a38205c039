use vstd::prelude::*;

verus! {

/// Largest width or height the JPEG codec accepts for an image side.
pub const MAX_DIMENSION: u32 = 65500;

/// IEEE-754 single-precision bit pattern of 100.0, the top of the quality
/// domain. For finite, non-negative floats the order of the bit patterns
/// (as unsigned integers) agrees with the numeric order, so a bit pattern
/// `b` with `0 < b <= QUALITY_MAX_BITS` holds exactly the qualities in
/// (0, 100]: zero is the pattern of +0.0, and every NaN or negative
/// pattern is larger than `QUALITY_MAX_BITS`.
pub const QUALITY_MAX_BITS: u32 = 0x42C8_0000;

/// General settings of one run: encoder quality (held as the bit pattern of
/// an IEEE-754 single-precision float), worker pool size, traversal and
/// output-placement switches.
#[derive(Clone, Copy, PartialEq, Eq, Structural, Debug)]
pub struct General {
    pub jpeg_quality_bits: u32,
    pub worker_count: usize,
    pub recurse_subdirectories: bool,
    pub overwrite_in_place: bool,
    pub preserve_metadata: bool,
}

/// Resize stage settings: when enabled, the longer image side is scaled to
/// `long_side_target` pixels, keeping the aspect ratio.
#[derive(Clone, Copy, PartialEq, Eq, Structural, Debug)]
pub struct Resize {
    pub enabled: bool,
    pub long_side_target: u32,
}

/// Sharpen stage settings: an unsharp mask with the given sigma (held as an
/// IEEE-754 single-precision bit pattern) and threshold.
#[derive(Clone, Copy, PartialEq, Eq, Structural, Debug)]
pub struct Sharpen {
    pub enabled: bool,
    pub sigma_bits: u32,
    pub threshold: i32,
}

/// Brighten stage settings: `delta` is added to every pixel channel,
/// saturating at the channel bounds.
#[derive(Clone, Copy, PartialEq, Eq, Structural, Debug)]
pub struct Brighten {
    pub enabled: bool,
    pub delta: i32,
}

/// Contrast stage settings: the per-channel deviation from mid-gray is
/// rescaled by the library-defined contrast law for `delta` (held as an
/// IEEE-754 single-precision bit pattern).
#[derive(Clone, Copy, PartialEq, Eq, Structural, Debug)]
pub struct Contrast {
    pub enabled: bool,
    pub delta_bits: u32,
}

/// The full configuration of one run, as handed in by the caller before
/// validation.
#[derive(Clone, Copy, PartialEq, Eq, Structural, Debug)]
pub struct Config {
    pub general: General,
    pub resize: Resize,
    pub sharpen: Sharpen,
    pub brighten: Brighten,
    pub contrast: Contrast,
}

/// Why a configuration could not become a run policy.
#[derive(Clone, Copy, PartialEq, Eq, Structural, Debug)]
pub enum ConfigError {
    /// The configuration file could not be read.
    MissingFile,
    /// The configuration file does not have the expected structure.
    MalformedStructure,
    /// `jpeg_quality` lies outside (0, 100].
    QualityOutOfDomain,
    /// `worker_count` is zero.
    WorkerCountOutOfDomain,
    /// `long_side_target` is zero or larger than the codec accepts.
    LongSideTargetOutOfDomain,
    /// Sharpening is enabled with a sigma the filter cannot take: not a
    /// positive normal float.
    SigmaOutOfDomain,
    /// Contrast is enabled with a NaN delta, which the filter cannot take.
    ContrastDeltaOutOfDomain,
}

impl Config {
    /// All values lie in their domains: quality in (0, 100], at least one
    /// worker, a resize target the codec can encode, and — for each
    /// enabled filter stage — a float parameter its filter can take. A
    /// disabled stage's parameter is never handed to a filter, so it is
    /// left alone.
    pub open spec fn domains_ok(self) -> bool {
        &&& 0 < self.general.jpeg_quality_bits <= QUALITY_MAX_BITS
        &&& self.general.worker_count >= 1
        &&& 0 < self.resize.long_side_target <= MAX_DIMENSION
        &&& self.sharpen.enabled ==> crate::filters::spec_sigma_ok(self.sharpen.sigma_bits)
        &&& self.contrast.enabled ==> crate::filters::spec_contrast_delta_ok(
            self.contrast.delta_bits,
        )
    }
}

/// The error `resolve` reports for an out-of-domain configuration: the
/// first domain violation found, in the fixed order quality, worker count,
/// resize target, sharpen sigma, contrast delta.
pub open spec fn spec_config_error(c: Config) -> ConfigError {
    if !(0 < c.general.jpeg_quality_bits <= QUALITY_MAX_BITS) {
        ConfigError::QualityOutOfDomain
    } else if c.general.worker_count == 0 {
        ConfigError::WorkerCountOutOfDomain
    } else if !(0 < c.resize.long_side_target <= MAX_DIMENSION) {
        ConfigError::LongSideTargetOutOfDomain
    } else if c.sharpen.enabled && !crate::filters::spec_sigma_ok(c.sharpen.sigma_bits) {
        ConfigError::SigmaOutOfDomain
    } else {
        ConfigError::ContrastDeltaOutOfDomain
    }
}

/// The immutable policy of one run: a configuration whose values were all
/// checked against their domains. It is built once by `resolve` and only
/// read afterwards.
#[derive(Clone, Copy, PartialEq, Eq, Structural, Debug)]
pub struct RunPolicy {
    pub config: Config,
}

impl RunPolicy {
    /// Well-formedness: the policy came from a configuration whose values
    /// all lie in their domains.
    pub open spec fn valid(self) -> bool {
        self.config.domains_ok()
    }
}

/// Checks every configuration value against its domain and freezes the
/// result as the policy of the run. Nothing is defaulted or adjusted: an
/// out-of-domain value is an error, and the first one found (quality,
/// then worker count, resize target, sharpen sigma, contrast delta) is
/// reported.
pub fn resolve(config: Config) -> (r: Result<RunPolicy, ConfigError>)
    ensures
        r is Ok <==> config.domains_ok(),
        r matches Ok(p) ==> p.config == config && p.valid(),
        !config.domains_ok() ==> r == Err::<RunPolicy, ConfigError>(spec_config_error(config)),
{
    if config.general.jpeg_quality_bits == 0 || config.general.jpeg_quality_bits
        > QUALITY_MAX_BITS {
        Err(ConfigError::QualityOutOfDomain)
    } else if config.general.worker_count == 0 {
        Err(ConfigError::WorkerCountOutOfDomain)
    } else if config.resize.long_side_target == 0 || config.resize.long_side_target
        > MAX_DIMENSION {
        Err(ConfigError::LongSideTargetOutOfDomain)
    } else if config.sharpen.enabled && (config.sharpen.sigma_bits < 0x0080_0000
        || config.sharpen.sigma_bits >= 0x7F80_0000) {
        Err(ConfigError::SigmaOutOfDomain)
    } else if config.contrast.enabled && (config.contrast.delta_bits & 0x7FFF_FFFF)
        > 0x7F80_0000 {
        Err(ConfigError::ContrastDeltaOutOfDomain)
    } else {
        Ok(RunPolicy { config })
    }
}

} // verus!
