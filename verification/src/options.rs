//! The command line of the `ffmpeg` process that raw frames are piped into.

use vstd::prelude::*;
use vstd::string::StringExecFns;
use crate::config::{FfmpegPipeEncoder, VideoConfig};
use crate::text::{decimal, decimal_string, lemma_words_of_push, words_of};

verus! {

/// Chooses the output options for one encoder and one quality.
pub struct FfmpegPipeOutputOptionBuilder {
    pub high_quality: bool,
    pub encoder: FfmpegPipeEncoder,
}

impl FfmpegPipeOutputOptionBuilder {
    /// The options that name the device and the upload filter of an encoder
    /// that runs on a VAAPI device; none for the other encoders.
    pub open spec fn spec_hwaccel_device_option(self) -> Seq<Seq<char>> {
        if self.encoder is HevcVaapi {
            seq!["-vaapi_device"@, "/dev/dri/renderD128"@, "-vf"@, "format=nv12,hwupload"@]
        } else {
            Seq::empty()
        }
    }

    /// The options that trade speed for quality, each encoder in its own
    /// words, and the pixel format of the output for the encoders that take
    /// one.
    pub open spec fn spec_quality_option(self) -> Seq<Seq<char>> {
        let effort = match self.encoder {
            FfmpegPipeEncoder::HevcVaapi => seq![
                "-compression_level"@,
                if self.high_quality {
                    "11"@
                } else {
                    "0"@
                },
            ],
            FfmpegPipeEncoder::HevcNvenc => seq![
                "-preset"@,
                if self.high_quality {
                    "p7"@
                } else {
                    "p1"@
                },
            ],
            _ => seq![
                "-preset"@,
                if self.high_quality {
                    "veryslow"@
                } else {
                    "ultrafast"@
                },
            ],
        };
        let pixel_format = if self.encoder is HevcVaapi {
            Seq::empty()
        } else {
            seq![
                "-pix_fmt"@,
                if self.high_quality {
                    "yuv444p"@
                } else {
                    "yuv420p"@
                },
            ]
        };
        effort + pixel_format
    }

    /// All output options: no audio, the encoder, then what the device and
    /// the quality ask for.
    pub open spec fn spec_build_option(self) -> Seq<Seq<char>> {
        seq!["-an"@, "-vcodec"@, self.encoder.spec_encoder_name()]
            + self.spec_hwaccel_device_option() + self.spec_quality_option()
    }

    /// Appends all output options to `args`.
    pub fn build_option(&self, args: &mut Vec<String>)
        ensures
            words_of(final(args)@) == words_of(old(args)@) + self.spec_build_option(),
    {
        push_word(args, "-an");
        push_word(args, "-vcodec");
        push_word(args, self.encoder.get_encoder_name());
        assert(words_of(args@) =~= words_of(old(args)@) + seq![
            "-an"@,
            "-vcodec"@,
            self.encoder.spec_encoder_name(),
        ]);
        self.specify_hwaccel_device_option(args);
        self.specify_quality_option(args);
        assert(words_of(args@) =~= words_of(old(args)@) + self.spec_build_option());
    }

    /// Appends the options of the hardware device to `args`.
    pub fn specify_hwaccel_device_option(&self, args: &mut Vec<String>)
        ensures
            words_of(final(args)@) == words_of(old(args)@) + self.spec_hwaccel_device_option(),
    {
        match self.encoder {
            FfmpegPipeEncoder::HevcVaapi => {
                push_word(args, "-vaapi_device");
                push_word(args, "/dev/dri/renderD128");
                push_word(args, "-vf");
                push_word(args, "format=nv12,hwupload");
            },
            _ => {},
        }
        assert(words_of(args@) =~= words_of(old(args)@) + self.spec_hwaccel_device_option());
    }

    /// Appends the options of quality and pixel format to `args`.
    pub fn specify_quality_option(&self, args: &mut Vec<String>)
        ensures
            words_of(final(args)@) == words_of(old(args)@) + self.spec_quality_option(),
    {
        match self.encoder {
            FfmpegPipeEncoder::HevcVaapi => {
                push_word(args, "-compression_level");
                // Levels 1 and 29 are refused by the device.
                if self.high_quality {
                    push_word(args, "11");
                } else {
                    push_word(args, "0");
                }
            },
            FfmpegPipeEncoder::HevcNvenc => {
                push_word(args, "-preset");
                if self.high_quality {
                    push_word(args, "p7");
                } else {
                    push_word(args, "p1");
                }
            },
            _ => {
                push_word(args, "-preset");
                if self.high_quality {
                    push_word(args, "veryslow");
                } else {
                    push_word(args, "ultrafast");
                }
            },
        }
        // The VAAPI encoder takes its pixel format from the upload filter.
        match self.encoder {
            FfmpegPipeEncoder::HevcVaapi => {},
            _ => {
                push_word(args, "-pix_fmt");
                if self.high_quality {
                    push_word(args, "yuv444p");
                } else {
                    push_word(args, "yuv420p");
                }
            },
        }
        assert(words_of(args@) =~= words_of(old(args)@) + self.spec_quality_option());
    }
}

/// The size of the picture as `ffmpeg` reads it: width, an `x`, height.
pub open spec fn spec_picture_size(width: u32, height: u32) -> Seq<char> {
    decimal(width as nat) + "x"@ + decimal(height as nat)
}

/// The arguments of the `ffmpeg` process: raw video of the configured pixel
/// format, size and rate is read from standard input, encoded as the builder
/// says, and written to the configured file, which is overwritten if it
/// exists.
pub open spec fn spec_pipe_arguments(
    video_config: VideoConfig,
    encoder_config: FfmpegPipeEncoder,
    high_profile: bool,
) -> Seq<Seq<char>> {
    seq![
        "-y"@,
        "-f"@,
        "rawvideo"@,
        "-pix_fmt"@,
        video_config.color_order.spec_name(),
        "-s"@,
        spec_picture_size(video_config.output_width, video_config.output_height),
        "-r"@,
        decimal(video_config.framerate as nat),
        "-i"@,
        "-"@,
    ] + (FfmpegPipeOutputOptionBuilder {
        high_quality: high_profile,
        encoder: encoder_config,
    }).spec_build_option() + seq![video_config.filename@]
}

/// The arguments to start the `ffmpeg` process with.
pub fn pipe_arguments(
    video_config: &VideoConfig,
    encoder_config: FfmpegPipeEncoder,
    high_profile: bool,
) -> (args: Vec<String>)
    ensures
        words_of(args@) == spec_pipe_arguments(*video_config, encoder_config, high_profile),
{
    let mut args: Vec<String> = Vec::new();
    push_word(&mut args, "-y");
    push_word(&mut args, "-f");
    push_word(&mut args, "rawvideo");
    push_word(&mut args, "-pix_fmt");
    push_word(&mut args, video_config.color_order.name());
    push_word(&mut args, "-s");
    let mut size = decimal_string(video_config.output_width);
    size.append("x");
    size.append(decimal_string(video_config.output_height).as_str());
    push_string(&mut args, size);
    push_word(&mut args, "-r");
    push_string(&mut args, decimal_string(video_config.framerate));
    push_word(&mut args, "-i");
    push_word(&mut args, "-");
    let ghost input = words_of(args@);
    assert(input =~= seq![
        "-y"@,
        "-f"@,
        "rawvideo"@,
        "-pix_fmt"@,
        video_config.color_order.spec_name(),
        "-s"@,
        spec_picture_size(video_config.output_width, video_config.output_height),
        "-r"@,
        decimal(video_config.framerate as nat),
        "-i"@,
        "-"@,
    ]);
    let builder = FfmpegPipeOutputOptionBuilder {
        high_quality: high_profile,
        encoder: encoder_config,
    };
    builder.build_option(&mut args);
    push_string(&mut args, video_config.filename.clone());
    assert(words_of(args@) =~= spec_pipe_arguments(*video_config, encoder_config, high_profile));
    args
}

fn push_word(args: &mut Vec<String>, word: &str)
    ensures
        words_of(final(args)@) == words_of(old(args)@).push(word@),
{
    let owned = word.to_owned();
    proof {
        lemma_words_of_push(args@, owned);
    }
    args.push(owned);
}

fn push_string(args: &mut Vec<String>, word: String)
    ensures
        words_of(final(args)@) == words_of(old(args)@).push(word@),
{
    proof {
        lemma_words_of_push(args@, word);
    }
    args.push(word);
}

} // verus!
