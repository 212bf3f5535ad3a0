use hue_sweep::batch::FrameOutcome;
use hue_sweep::hsl::{Hsl, Palette};
use hue_sweep::plan::plan_frames;
use hue_sweep::render::{rasterize_frame, render_frame};
use hue_sweep::text::colorize;

fn bytes(s: &str) -> Vec<u8> {
    s.as_bytes().to_vec()
}

const PNG_MAGIC: [u8; 8] = [137, 80, 78, 71, 13, 10, 26, 10];

fn tiny_template() -> Vec<u8> {
    bytes(
        "<svg xmlns='http://www.w3.org/2000/svg' width='4' height='4'>\
         <rect width='4' height='4' fill='COLOR_1'/></svg>",
    )
}

fn base_palette() -> Palette {
    Palette {
        primary: Hsl::new(305, 100, 50),
        secondary: Hsl::new(337, 100, 49),
        accent: Hsl::new(34, 100, 50),
    }
}

#[test]
fn valid_frame_rasterizes_to_png_bytes() {
    let text = colorize(&tiny_template(), &base_palette());
    let png = rasterize_frame(&text).expect("a well-formed frame rasterizes");
    assert!(png.len() > 8);
    assert_eq!(&png[..8], &PNG_MAGIC);
}

#[test]
fn malformed_frame_fails_at_the_parse_stage() {
    let text = bytes("this is not vector graphics");
    assert_eq!(rasterize_frame(&text), Err(FrameOutcome::ParseFailed));
}

#[test]
fn invalid_utf8_fails_at_the_parse_stage() {
    let text = vec![0xffu8, 0xfe, 0xfd];
    assert_eq!(rasterize_frame(&text), Err(FrameOutcome::ParseFailed));
}

#[test]
fn rasterization_is_reproducible() {
    let text = colorize(&tiny_template(), &base_palette());
    let first = rasterize_frame(&text).expect("a well-formed frame rasterizes");
    let second = rasterize_frame(&text).expect("a well-formed frame rasterizes");
    assert_eq!(first, second);
}

#[test]
fn whole_frame_job_names_and_renders() {
    let config = hue_sweep::plan::SweepConfig {
        step_degrees: 10,
        range_degrees: 360,
        base: base_palette(),
        primary_hue_offset: 0,
        secondary_hue_offset: 0,
        accent_hue_offset: 0,
        saturation_delta: 0,
        lightness_delta: 0,
    };
    let frames = plan_frames(&config);
    let template = tiny_template();
    let rendered = render_frame(&template, &frames[3]);
    assert_eq!(String::from_utf8(rendered.name).unwrap(), "far-nearer-30.png");
    let png = rendered.png.expect("a well-formed frame rasterizes");
    assert_eq!(&png[..8], &PNG_MAGIC);
    // The same frame run again yields the same artifact name and bytes.
    let again = render_frame(&template, &frames[3]);
    assert_eq!(String::from_utf8(again.name).unwrap(), "far-nearer-30.png");
    assert_eq!(again.png.unwrap(), png);
}

#[test]
fn unaddressably_large_frame_fails_at_the_raster_stage() {
    // tiny-skia refuses a pixmap whose row bytes exceed the addressable
    // limit, before allocating anything.
    let text = bytes(
        "<svg xmlns='http://www.w3.org/2000/svg' width='900000000' height='2'></svg>",
    );
    assert_eq!(rasterize_frame(&text), Err(FrameOutcome::RenderFailed));
}

#[test]
fn one_malformed_frame_does_not_stop_the_others() {
    let config = hue_sweep::plan::SweepConfig {
        step_degrees: 120,
        range_degrees: 360,
        base: base_palette(),
        primary_hue_offset: 0,
        secondary_hue_offset: 0,
        accent_hue_offset: 0,
        saturation_delta: 0,
        lightness_delta: 0,
    };
    let frames = plan_frames(&config);
    assert_eq!(frames.len(), 3);
    let template = tiny_template();
    let mut outcomes = Vec::new();
    for (k, frame) in frames.iter().enumerate() {
        // The middle frame's text is corrupted; the others are untouched.
        let text = if k == 1 { bytes("<svg") } else { colorize(&template, &frame.colors) };
        let outcome = match rasterize_frame(&text) {
            Ok(_) => FrameOutcome::Written,
            Err(outcome) => outcome,
        };
        outcomes.push(outcome);
    }
    assert_eq!(outcomes[0], FrameOutcome::Written);
    assert_eq!(outcomes[1], FrameOutcome::ParseFailed);
    assert_eq!(outcomes[2], FrameOutcome::Written);
    let report = hue_sweep::batch::summarize(&outcomes);
    assert_eq!(report.attempted, 3);
    assert_eq!(report.failed, 1);
}
