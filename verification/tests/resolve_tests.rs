use vidinf::info::FrameProps;
use vidinf::info::StreamProps;
use vidinf::resolve::chroma_loc;
use vidinf::resolve::color_range_code;
use vidinf::resolve::content_light_string;
use vidinf::resolve::get_chroma_loc;
use vidinf::resolve::get_vidinf;
use vidinf::resolve::is_10bit;
use vidinf::resolve::mastering_string;
use vidinf::resolve::matrix_coefficients;

fn base_stream() -> StreamProps {
    StreamProps {
        fps_num: 0,
        fps_den: 0,
        num_frames: 0,
        color_space: 0,
        sar_num: 0,
        sar_den: 0,
        crop_top: 0,
        crop_bottom: 0,
        crop_left: 0,
        crop_right: 0,
        stereo_3d_type: 0,
        stereo_3d_flags: 0,
        has_mastering_primaries: 0,
        has_mastering_luminance: 0,
        green_x: 0,
        green_y: 0,
        blue_x: 0,
        blue_y: 0,
        red_x: 0,
        red_y: 0,
        white_x: 0,
        white_y: 0,
        max_luminance: 0,
        min_luminance: 0,
        has_content_light: 0,
        content_light_max: 0,
        content_light_avg: 0,
    }
}

fn base_frame() -> FrameProps {
    FrameProps {
        encoded_width: 0,
        encoded_height: 0,
        luma_stride: 0,
        color_primaries: 0,
        transfer_characteristics: 0,
        color_space: 0,
        color_range: 0,
        chroma_location: 0,
        interlaced_frame: 0,
        top_field_first: 0,
    }
}

#[test]
fn matrix_reserved_falls_back_to_stream() {
    assert_eq!(matrix_coefficients(3, 6), 6);
}

#[test]
fn matrix_unspecified_becomes_default() {
    assert_eq!(matrix_coefficients(0, 0), 2);
}

#[test]
fn matrix_frame_value_wins() {
    assert_eq!(matrix_coefficients(5, 0), 5);
    assert_eq!(matrix_coefficients(5, 9), 5);
}

#[test]
fn matrix_stream_unspecified_after_reserved_becomes_default() {
    assert_eq!(matrix_coefficients(3, 0), 2);
}

#[test]
fn color_range_limited_maps_to_zero() {
    assert_eq!(color_range_code(1), Some(0));
}

#[test]
fn color_range_full_maps_to_one() {
    assert_eq!(color_range_code(2), Some(1));
}

#[test]
fn color_range_other_is_absent() {
    assert_eq!(color_range_code(0), None);
    assert_eq!(color_range_code(3), None);
}

#[test]
fn chroma_left_maps_to_one() {
    assert_eq!(get_chroma_loc("clip.mkv", 1), Some(1));
}

#[test]
fn chroma_topleft_maps_to_two() {
    assert_eq!(get_chroma_loc("clip.mkv", 3), Some(2));
}

#[test]
fn chroma_zero_is_absent() {
    assert_eq!(get_chroma_loc("clip.mkv", 0), None);
}

#[test]
fn chroma_other_codes_are_absent() {
    assert_eq!(get_chroma_loc("clip.mkv", 2), None);
    assert_eq!(get_chroma_loc("clip.mkv", 5), None);
}

#[test]
fn chroma_hint_is_preferred() {
    assert_eq!(chroma_loc(Some(3), 1), Some(2));
    assert_eq!(chroma_loc(Some(1), 0), Some(1));
    assert_eq!(chroma_loc(Some(5), 1), None);
}

#[test]
fn ten_bit_when_stride_doubles_width() {
    assert!(is_10bit(1920, 3840));
}

#[test]
fn not_ten_bit_when_stride_equals_width() {
    assert!(!is_10bit(1920, 1920));
}

#[test]
fn mastering_absent_without_presence_flags() {
    let props = base_stream();
    let inf = get_vidinf(&props, &base_frame(), None);
    assert_eq!(inf.mastering_display, None);
    let mut only_primaries = base_stream();
    only_primaries.has_mastering_primaries = 1;
    let inf = get_vidinf(&only_primaries, &base_frame(), None);
    assert_eq!(inf.mastering_display, None);
    let mut only_luminance = base_stream();
    only_luminance.has_mastering_luminance = 1;
    let inf = get_vidinf(&only_luminance, &base_frame(), None);
    assert_eq!(inf.mastering_display, None);
}

#[test]
fn mastering_formats_all_parts() {
    let mut props = base_stream();
    props.has_mastering_primaries = 1;
    props.has_mastering_luminance = 1;
    props.green_x = 2650;
    props.green_y = 6900;
    props.blue_x = 1500;
    props.blue_y = 600;
    props.red_x = 6800;
    props.red_y = 3200;
    props.white_x = 3127;
    props.white_y = 3290;
    props.max_luminance = 10000000;
    props.min_luminance = 50;
    let s = mastering_string(&props);
    assert_eq!(
        s,
        "G(0.2650,0.6900)B(0.1500,0.0600)R(0.6800,0.3200)WP(0.3127,0.3290)L(1000.0000,0.0050)"
    );
    let inf = get_vidinf(&props, &base_frame(), None);
    assert_eq!(
        inf.mastering_display.as_deref(),
        Some("G(0.2650,0.6900)B(0.1500,0.0600)R(0.6800,0.3200)WP(0.3127,0.3290)L(1000.0000,0.0050)")
    );
}

#[test]
fn content_light_formats_max_and_average() {
    assert_eq!(content_light_string(1000, 200), "1000,200");
    let mut props = base_stream();
    props.has_content_light = 1;
    props.content_light_max = 4000;
    props.content_light_avg = 128;
    let inf = get_vidinf(&props, &base_frame(), None);
    assert_eq!(inf.content_light.as_deref(), Some("4000,128"));
}

#[test]
fn content_light_absent_without_flag() {
    let inf = get_vidinf(&base_stream(), &base_frame(), None);
    assert_eq!(inf.content_light, None);
}

#[test]
fn sar_zero_is_absent() {
    let inf = get_vidinf(&base_stream(), &base_frame(), None);
    assert_eq!(inf.sar_num, None);
    assert_eq!(inf.sar_den, None);
}

#[test]
fn sar_positive_passes_through() {
    let mut props = base_stream();
    props.sar_num = 24;
    props.sar_den = 1;
    let inf = get_vidinf(&props, &base_frame(), None);
    assert_eq!(inf.sar_num, Some(24));
    assert_eq!(inf.sar_den, Some(1));
}

#[test]
fn sar_negative_is_absent() {
    let mut props = base_stream();
    props.sar_num = -1;
    props.sar_den = -7;
    let inf = get_vidinf(&props, &base_frame(), None);
    assert_eq!(inf.sar_num, None);
    assert_eq!(inf.sar_den, None);
}

#[test]
fn top_field_first_only_when_interlaced() {
    let mut frame = base_frame();
    frame.interlaced_frame = 1;
    frame.top_field_first = 1;
    let inf = get_vidinf(&base_stream(), &frame, None);
    assert!(inf.is_interlaced);
    assert_eq!(inf.top_field_first, Some(true));

    frame.top_field_first = 0;
    let inf = get_vidinf(&base_stream(), &frame, None);
    assert_eq!(inf.top_field_first, Some(false));

    frame.interlaced_frame = 0;
    frame.top_field_first = 1;
    let inf = get_vidinf(&base_stream(), &frame, None);
    assert!(!inf.is_interlaced);
    assert_eq!(inf.top_field_first, None);
}

#[test]
fn geometry_and_passthrough_fields() {
    let mut props = base_stream();
    props.fps_num = 24000;
    props.fps_den = 1001;
    props.num_frames = 500;
    props.crop_top = 2;
    props.crop_bottom = 4;
    props.crop_left = 6;
    props.crop_right = 8;
    props.stereo_3d_type = 7;
    props.stereo_3d_flags = 9;
    let mut frame = base_frame();
    frame.encoded_width = 1920;
    frame.encoded_height = 1080;
    frame.luma_stride = 3840;
    frame.color_primaries = 1;
    frame.transfer_characteristics = 16;
    let inf = get_vidinf(&props, &frame, None);
    assert_eq!(inf.width, 1920);
    assert_eq!(inf.height, 1080);
    assert_eq!(inf.fps_num, 24000);
    assert_eq!(inf.fps_den, 1001);
    assert_eq!(inf.frames, 500);
    assert_eq!(inf.crop_top, 2);
    assert_eq!(inf.crop_bottom, 4);
    assert_eq!(inf.crop_left, 6);
    assert_eq!(inf.crop_right, 8);
    assert_eq!(inf.stereo_3d_type, 7);
    assert_eq!(inf.stereo_3d_flags, 9);
    assert_eq!(inf.color_primaries, Some(1));
    assert_eq!(inf.transfer_characteristics, Some(16));
    assert!(inf.is_10bit);
}

#[test]
fn all_sentinels_resolve_end_to_end() {
    let props = base_stream();
    let frame = base_frame();
    let inf = get_vidinf(&props, &frame, None);
    assert_eq!(inf.matrix_coefficients, Some(2));
    assert_eq!(inf.color_range, None);
    assert_eq!(inf.chroma_sample_position, None);
    assert_eq!(inf.sar_num, None);
    assert_eq!(inf.sar_den, None);
    assert_eq!(inf.crop_top, 0);
    assert_eq!(inf.crop_bottom, 0);
    assert_eq!(inf.crop_left, 0);
    assert_eq!(inf.crop_right, 0);
    assert_eq!(inf.top_field_first, None);
    assert_eq!(inf.mastering_display, None);
    assert_eq!(inf.content_light, None);
}
