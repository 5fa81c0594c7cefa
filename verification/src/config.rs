use vstd::prelude::*;

verus! {

/// Default capture width in pixels, used when no target resolution is configured.
pub const DEFAULT_WIDTH: u32 = 1280;

/// Default capture height in pixels, used when no target resolution is configured.
pub const DEFAULT_HEIGHT: u32 = 720;

/// Why a set of proposed settings was rejected at startup.
#[derive(PartialEq, Eq, Structural, Clone, Copy, Debug)]
pub enum ConfigError {
    /// The encode quality is outside the accepted `0..=100` range.
    QualityOutOfRange,
}

/// Read-only acquisition settings, supplied once at startup.
///
/// The pipeline must not run with invalid settings, so values coming from a
/// configuration file go through [`Settings::new`], which rejects them with a
/// [`ConfigError`] instead of letting the pipeline start.
#[derive(Clone, Debug)]
pub struct Settings {
    /// Milliseconds the acquisition loop sleeps between two capture cycles.
    pub capture_interval_ms: u32,
    /// JPEG encode quality handed to the external codec, `0..=100`.
    pub jpg_quality: u8,
    /// Requested capture resolution; a hint only, the device picks the
    /// nearest supported mode. Absent means "use the default resolution".
    pub resolution: Option<(u32, u32)>,
    /// Requested frame rate; a hint only.
    pub frame_rate_hint: Option<u32>,
}

impl Settings {
    /// The proposed values are acceptable exactly when the encode quality is
    /// within `0..=100`.
    pub open spec fn acceptable(jpg_quality: u8) -> bool {
        jpg_quality <= 100
    }

    /// Validates proposed settings; the process must not run on an `Err`.
    pub fn new(
        capture_interval_ms: u32,
        jpg_quality: u8,
        resolution: Option<(u32, u32)>,
        frame_rate_hint: Option<u32>,
    ) -> (r: Result<Settings, ConfigError>)
        ensures
            r is Ok <==> Self::acceptable(jpg_quality),
            r matches Ok(s) ==> s.capture_interval_ms == capture_interval_ms
                && s.jpg_quality == jpg_quality && s.resolution == resolution
                && s.frame_rate_hint == frame_rate_hint,
            !Self::acceptable(jpg_quality) ==> r == Err::<Settings, ConfigError>(
                ConfigError::QualityOutOfRange,
            ),
    {
        if jpg_quality > 100 {
            Err(ConfigError::QualityOutOfRange)
        } else {
            Ok(Settings { capture_interval_ms, jpg_quality, resolution, frame_rate_hint })
        }
    }

    /// The resolution the devices are asked for: the configured target, or the
    /// default when none was configured.
    pub fn effective_resolution(&self) -> (r: (u32, u32))
        ensures
            match self.resolution {
                Some(res) => r == res,
                None => r == (DEFAULT_WIDTH, DEFAULT_HEIGHT),
            },
    {
        match self.resolution {
            Some(res) => res,
            None => (DEFAULT_WIDTH, DEFAULT_HEIGHT),
        }
    }
}

} // verus!
