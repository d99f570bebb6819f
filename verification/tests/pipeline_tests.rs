use portal_screencast::pipeline::{
    build_pipeline_description, u32_to_dec, CaptureTarget, PipelineConfig,
};

fn config(sink_path: &str) -> PipelineConfig {
    PipelineConfig {
        framerate: 30,
        encoder_cpu_used: 16,
        sink_path: sink_path.to_owned(),
    }
}

#[test]
fn decimal_rendering_of_zero() {
    assert_eq!(u32_to_dec(0), "0");
}

#[test]
fn decimal_rendering_of_one_digit() {
    assert_eq!(u32_to_dec(7), "7");
}

#[test]
fn decimal_rendering_of_many_digits() {
    assert_eq!(u32_to_dec(1234), "1234");
    assert_eq!(u32_to_dec(100), "100");
}

#[test]
fn decimal_rendering_of_the_largest_value() {
    assert_eq!(u32_to_dec(u32::MAX), "4294967295");
}

#[test]
fn description_by_node_identifier() {
    let target = CaptureTarget::by_node(55);
    let description = build_pipeline_description(&target, &config("test.mp4"));
    let expected = "pipewiresrc do-timestamp=true keepalive-time=1000 path=55 ! videorate ! video/x-raw,framerate=30/1 ! videoconvert chroma-mode=none dither=none matrix-mode=output-only ! queue ! vp8enc cpu-used=16 max-quantizer=17 deadline=1 keyframe-mode=disabled threads=8 static-threshold=1000 buffer-size=20000 ! queue ! webmmux ! filesink location=test.mp4";
    assert_eq!(description, expected);
}

#[test]
fn description_by_remote_descriptor_with_node() {
    let target = CaptureTarget::by_remote(Some(7), 5);
    let description = build_pipeline_description(&target, &config("out.webm"));
    assert!(description.starts_with("pipewiresrc fd=5 path=7 ! videorate"));
    assert!(description.ends_with("filesink location=out.webm"));
}

#[test]
fn description_by_remote_descriptor_alone() {
    let target = CaptureTarget::by_remote(None, 11);
    let description = build_pipeline_description(&target, &config("out.webm"));
    assert!(description.starts_with("pipewiresrc fd=11 ! videorate"));
}

#[test]
fn description_uses_the_configured_settings() {
    let target = CaptureTarget::by_node(1);
    let cfg = PipelineConfig {
        framerate: 60,
        encoder_cpu_used: 8,
        sink_path: "a b.webm".to_owned(),
    };
    let description = build_pipeline_description(&target, &cfg);
    assert!(description.contains("framerate=60/1"));
    assert!(description.contains("cpu-used=8"));
    assert!(description.ends_with("location=a b.webm"));
}
