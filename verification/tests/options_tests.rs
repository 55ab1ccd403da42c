use video_backend::config::{ColorOrder, FfmpegPipeEncoder, VideoConfig};
use video_backend::options::{pipe_arguments, FfmpegPipeOutputOptionBuilder};
use video_backend::text::decimal_string;

fn built(encoder: FfmpegPipeEncoder, high_quality: bool) -> Vec<String> {
    let mut args = Vec::new();
    FfmpegPipeOutputOptionBuilder { high_quality, encoder }.build_option(&mut args);
    args
}

fn quality(encoder: FfmpegPipeEncoder, high_quality: bool) -> Vec<String> {
    let mut args = Vec::new();
    FfmpegPipeOutputOptionBuilder { high_quality, encoder }.specify_quality_option(&mut args);
    args
}

#[test]
fn encoder_names() {
    assert_eq!(FfmpegPipeEncoder::Libx264.get_encoder_name(), "libx264");
    assert_eq!(FfmpegPipeEncoder::Libx265.get_encoder_name(), "libx265");
    assert_eq!(FfmpegPipeEncoder::HevcNvenc.get_encoder_name(), "hevc_nvenc");
    assert_eq!(FfmpegPipeEncoder::HevcVaapi.get_encoder_name(), "hevc_vaapi");
}

#[test]
fn color_order_names() {
    assert_eq!(ColorOrder::Bgra.name(), "bgra");
    assert_eq!(ColorOrder::Rgba.name(), "rgba");
}

#[test]
fn decimal_strings() {
    assert_eq!(decimal_string(0), "0");
    assert_eq!(decimal_string(7), "7");
    assert_eq!(decimal_string(10), "10");
    assert_eq!(decimal_string(60), "60");
    assert_eq!(decimal_string(1920), "1920");
    assert_eq!(decimal_string(1080), "1080");
    assert_eq!(decimal_string(1_000_000), "1000000");
    assert_eq!(decimal_string(u32::MAX), "4294967295");
    for n in [1u32, 9, 11, 99, 100, 101, 12345, 987_654_321] {
        assert_eq!(decimal_string(n), format!("{}", n));
    }
}

#[test]
fn quality_options_of_software_encoders() {
    for encoder in [FfmpegPipeEncoder::Libx264, FfmpegPipeEncoder::Libx265] {
        assert_eq!(
            quality(encoder, true),
            vec!["-preset", "veryslow", "-pix_fmt", "yuv444p"]
        );
        assert_eq!(
            quality(encoder, false),
            vec!["-preset", "ultrafast", "-pix_fmt", "yuv420p"]
        );
    }
}

#[test]
fn quality_options_of_nvenc() {
    assert_eq!(
        quality(FfmpegPipeEncoder::HevcNvenc, true),
        vec!["-preset", "p7", "-pix_fmt", "yuv444p"]
    );
    assert_eq!(
        quality(FfmpegPipeEncoder::HevcNvenc, false),
        vec!["-preset", "p1", "-pix_fmt", "yuv420p"]
    );
}

#[test]
fn quality_options_of_vaapi_have_no_pixel_format() {
    assert_eq!(
        quality(FfmpegPipeEncoder::HevcVaapi, true),
        vec!["-compression_level", "11"]
    );
    assert_eq!(
        quality(FfmpegPipeEncoder::HevcVaapi, false),
        vec!["-compression_level", "0"]
    );
}

#[test]
fn hwaccel_options_only_for_vaapi() {
    let mut args = vec!["keep".to_string()];
    FfmpegPipeOutputOptionBuilder { high_quality: true, encoder: FfmpegPipeEncoder::HevcVaapi }
        .specify_hwaccel_device_option(&mut args);
    assert_eq!(
        args,
        vec!["keep", "-vaapi_device", "/dev/dri/renderD128", "-vf", "format=nv12,hwupload"]
    );
    for encoder in [
        FfmpegPipeEncoder::Libx264,
        FfmpegPipeEncoder::Libx265,
        FfmpegPipeEncoder::HevcNvenc,
    ] {
        let mut args = vec!["keep".to_string()];
        FfmpegPipeOutputOptionBuilder { high_quality: false, encoder }
            .specify_hwaccel_device_option(&mut args);
        assert_eq!(args, vec!["keep"]);
    }
}

#[test]
fn build_option_for_libx264() {
    assert_eq!(
        built(FfmpegPipeEncoder::Libx264, false),
        vec!["-an", "-vcodec", "libx264", "-preset", "ultrafast", "-pix_fmt", "yuv420p"]
    );
}

#[test]
fn build_option_for_vaapi() {
    assert_eq!(
        built(FfmpegPipeEncoder::HevcVaapi, true),
        vec![
            "-an",
            "-vcodec",
            "hevc_vaapi",
            "-vaapi_device",
            "/dev/dri/renderD128",
            "-vf",
            "format=nv12,hwupload",
            "-compression_level",
            "11"
        ]
    );
}

#[test]
fn build_option_appends_to_what_is_there() {
    let mut args = vec!["-i".to_string(), "-".to_string()];
    FfmpegPipeOutputOptionBuilder { high_quality: true, encoder: FfmpegPipeEncoder::HevcNvenc }
        .build_option(&mut args);
    assert_eq!(
        args,
        vec!["-i", "-", "-an", "-vcodec", "hevc_nvenc", "-preset", "p7", "-pix_fmt", "yuv444p"]
    );
}

#[test]
fn pipe_arguments_for_libx265() {
    let config = VideoConfig {
        filename: "out.mp4".to_string(),
        framerate: 60,
        output_width: 1920,
        output_height: 1080,
        color_order: ColorOrder::Bgra,
    };
    assert_eq!(
        pipe_arguments(&config, FfmpegPipeEncoder::Libx265, true),
        vec![
            "-y", "-f", "rawvideo", "-pix_fmt", "bgra", "-s", "1920x1080", "-r", "60", "-i", "-",
            "-an", "-vcodec", "libx265", "-preset", "veryslow", "-pix_fmt", "yuv444p", "out.mp4"
        ]
    );
}

#[test]
fn pipe_arguments_for_vaapi_rgba() {
    let config = VideoConfig {
        filename: "a b.mkv".to_string(),
        framerate: 0,
        output_width: 7,
        output_height: 4294967295,
        color_order: ColorOrder::Rgba,
    };
    assert_eq!(
        pipe_arguments(&config, FfmpegPipeEncoder::HevcVaapi, false),
        vec![
            "-y", "-f", "rawvideo", "-pix_fmt", "rgba", "-s", "7x4294967295", "-r", "0", "-i",
            "-", "-an", "-vcodec", "hevc_vaapi", "-vaapi_device", "/dev/dri/renderD128", "-vf",
            "format=nv12,hwupload", "-compression_level", "0", "a b.mkv"
        ]
    );
}
