use vstd::prelude::*;

verus! {

/// Successful-conversion response record. The percentage saved is a
/// floating-point figure derived from the two sizes; it is computed at
/// the serialization boundary, outside this crate's verified core.
#[derive(Debug, Clone)]
pub struct ConvertResponse {
    pub success: bool,
    pub message: String,
    pub filename: String,
    /// Base64-encoded bytes of the converted output.
    pub webp_data: String,
    pub original_size: usize,
    pub converted_size: usize,
}

/// Request model for conversions submitted as JSON instead of multipart.
#[derive(Debug, Clone)]
pub struct ConvertRequest {
    /// Base64-encoded PNG data.
    pub image_data: String,
    pub filename: Option<String>,
}

/// Video compression quality settings.
#[derive(Debug, Clone)]
pub struct VideoCompressionSettings {
    pub quality: CompressionQuality,
    pub audio_bitrate: Option<String>,
}

/// Closed set of compression presets, each mapping to concrete encoder
/// parameters.
#[derive(Debug, Clone, Copy, PartialEq, Eq, Structural)]
pub enum CompressionQuality {
    /// Maximum compression, smallest file size.
    Maximum,
    /// High compression, good balance.
    High,
    /// Balanced compression and quality.
    Balanced,
    /// Low compression, better quality.
    Low,
    /// Minimal compression, highest quality.
    Minimal,
}

impl Default for VideoCompressionSettings {
    fn default() -> (r: Self)
        ensures
            r.quality == CompressionQuality::High,
            r.audio_bitrate matches Some(b) && b@ == "64k"@,
    {
        VideoCompressionSettings {
            quality: CompressionQuality::High,
            audio_bitrate: Some("64k".to_owned()),
        }
    }
}

impl CompressionQuality {
    /// Constant-rate-factor value of the preset.
    pub open spec fn spec_crf(self) -> u8 {
        match self {
            CompressionQuality::Maximum => 35,
            CompressionQuality::High => 28,
            CompressionQuality::Balanced => 25,
            CompressionQuality::Low => 20,
            CompressionQuality::Minimal => 18,
        }
    }

    /// Encoder speed/effort value of the preset.
    pub open spec fn spec_cpu_used(self) -> u8 {
        match self {
            CompressionQuality::Maximum => 6,
            CompressionQuality::High => 4,
            CompressionQuality::Balanced => 3,
            CompressionQuality::Low => 2,
            CompressionQuality::Minimal => 1,
        }
    }

    /// Deadline mode of the preset.
    pub open spec fn spec_deadline(self) -> Seq<char> {
        match self {
            CompressionQuality::Maximum => "realtime"@,
            CompressionQuality::High => "good"@,
            CompressionQuality::Balanced => "good"@,
            CompressionQuality::Low => "best"@,
            CompressionQuality::Minimal => "best"@,
        }
    }

    /// Decimal text of the constant-rate-factor value.
    pub open spec fn spec_crf_text(self) -> Seq<char> {
        match self {
            CompressionQuality::Maximum => "35"@,
            CompressionQuality::High => "28"@,
            CompressionQuality::Balanced => "25"@,
            CompressionQuality::Low => "20"@,
            CompressionQuality::Minimal => "18"@,
        }
    }

    /// Decimal text of the encoder speed/effort value.
    pub open spec fn spec_cpu_used_text(self) -> Seq<char> {
        match self {
            CompressionQuality::Maximum => "6"@,
            CompressionQuality::High => "4"@,
            CompressionQuality::Balanced => "3"@,
            CompressionQuality::Low => "2"@,
            CompressionQuality::Minimal => "1"@,
        }
    }

    /// Get CRF value for the quality setting.
    pub fn crf_value(&self) -> (r: u8)
        ensures
            r == self.spec_crf(),
    {
        match self {
            CompressionQuality::Maximum => 35,
            CompressionQuality::High => 28,
            CompressionQuality::Balanced => 25,
            CompressionQuality::Low => 20,
            CompressionQuality::Minimal => 18,
        }
    }

    /// Get CPU usage setting for the encoding speed vs quality trade-off.
    pub fn cpu_used(&self) -> (r: u8)
        ensures
            r == self.spec_cpu_used(),
    {
        match self {
            CompressionQuality::Maximum => 6,
            CompressionQuality::High => 4,
            CompressionQuality::Balanced => 3,
            CompressionQuality::Low => 2,
            CompressionQuality::Minimal => 1,
        }
    }

    /// Get deadline setting.
    pub fn deadline(&self) -> (r: &'static str)
        ensures
            r@ == self.spec_deadline(),
    {
        match self {
            CompressionQuality::Maximum => "realtime",
            CompressionQuality::High => "good",
            CompressionQuality::Balanced => "good",
            CompressionQuality::Low => "best",
            CompressionQuality::Minimal => "best",
        }
    }

    /// CRF value as the decimal text handed to the external transcoder.
    pub fn crf_text(&self) -> (r: &'static str)
        ensures
            r@ == self.spec_crf_text(),
    {
        match self {
            CompressionQuality::Maximum => "35",
            CompressionQuality::High => "28",
            CompressionQuality::Balanced => "25",
            CompressionQuality::Low => "20",
            CompressionQuality::Minimal => "18",
        }
    }

    /// Speed/effort value as the decimal text handed to the external
    /// transcoder.
    pub fn cpu_used_text(&self) -> (r: &'static str)
        ensures
            r@ == self.spec_cpu_used_text(),
    {
        match self {
            CompressionQuality::Maximum => "6",
            CompressionQuality::High => "4",
            CompressionQuality::Balanced => "3",
            CompressionQuality::Low => "2",
            CompressionQuality::Minimal => "1",
        }
    }
}

} // verus!
