//! Output configuration: what the sinks are told about the video.

use vstd::prelude::*;

verus! {

/// The order of the four channels in a pixel of a raw frame.
#[derive(Debug, Clone, Copy, PartialEq, Eq, Structural)]
pub enum ColorOrder {
    Bgra,
    Rgba,
}

impl ColorOrder {
    /// The characters of the pixel format name, as `ffmpeg` spells it.
    pub open spec fn spec_name(self) -> Seq<char> {
        match self {
            ColorOrder::Bgra => "bgra"@,
            ColorOrder::Rgba => "rgba"@,
        }
    }

    /// The pixel format name, as `ffmpeg` spells it.
    pub fn name(&self) -> (name: &'static str)
        ensures
            name@ == self.spec_name(),
    {
        match self {
            ColorOrder::Bgra => "bgra",
            ColorOrder::Rgba => "rgba",
        }
    }
}

/// The encoder that the `ffmpeg` child process is asked to use.
#[derive(Debug, Clone, Copy, PartialEq, Eq, Structural)]
pub enum FfmpegPipeEncoder {
    Libx264,
    Libx265,
    HevcNvenc,
    HevcVaapi,
}

impl FfmpegPipeEncoder {
    /// The characters of the encoder's name on the `ffmpeg` command line.
    pub open spec fn spec_encoder_name(self) -> Seq<char> {
        match self {
            FfmpegPipeEncoder::Libx264 => "libx264"@,
            FfmpegPipeEncoder::Libx265 => "libx265"@,
            FfmpegPipeEncoder::HevcNvenc => "hevc_nvenc"@,
            FfmpegPipeEncoder::HevcVaapi => "hevc_vaapi"@,
        }
    }

    /// The encoder's name on the `ffmpeg` command line.
    pub fn get_encoder_name(&self) -> (name: &'static str)
        ensures
            name@ == self.spec_encoder_name(),
    {
        match self {
            FfmpegPipeEncoder::Libx264 => "libx264",
            FfmpegPipeEncoder::Libx265 => "libx265",
            FfmpegPipeEncoder::HevcNvenc => "hevc_nvenc",
            FfmpegPipeEncoder::HevcVaapi => "hevc_vaapi",
        }
    }
}

/// What every sink needs to know about the output.
#[derive(Debug, Clone)]
pub struct VideoConfig {
    pub filename: String,
    pub framerate: u32,
    pub output_width: u32,
    pub output_height: u32,
    pub color_order: ColorOrder,
}

/// Settings of the sink that pipes raw frames into an `ffmpeg` process.
#[derive(Debug, Clone, Copy)]
pub struct FfmpegPipeConfig {
    pub ffmpeg_encoder: FfmpegPipeEncoder,
}

/// Settings of the sink that encodes in process.
#[derive(Debug, Clone, Copy)]
pub struct FfmpegConfig {
    pub ffmpeg_encoder: FfmpegPipeEncoder,
}

} // verus!
