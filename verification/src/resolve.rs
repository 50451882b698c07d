//! The metadata-resolution rules: turn the stream-level and frame-level
//! descriptors of one video track into the canonical `VidInf` record.
//!
//! Every rule is stated as a spec function and proved of the executable
//! resolver. Resolution is all-or-nothing: given both descriptors, every
//! field of the record is computed; no partially populated record exists.

use vstd::prelude::*;

use crate::info::FrameProps;
use crate::info::StreamProps;
use crate::info::VidInf;
use crate::numfmt::dec_seq;
use crate::numfmt::fixed4_seq;
use crate::numfmt::fixed4_string;
use crate::numfmt::u64_string;

verus! {

/// The resolved matrix-coefficients code: prefer the frame-level code, fall
/// back to the stream-level code when the frame says "reserved" (3), and
/// substitute the default 2 when the chosen code is "unspecified" (0).
pub open spec fn spec_matrix(frame_cs: i32, stream_cs: i32) -> i32 {
    let chosen = if frame_cs == 3 {
        stream_cs
    } else {
        frame_cs
    };
    if chosen == 0 {
        2
    } else {
        chosen
    }
}

/// The color-range mapping: limited (1) becomes 0, full (2) becomes 1,
/// anything else (including unspecified) is absent.
pub open spec fn spec_color_range(cr: i32) -> Option<i32> {
    if cr == 1 {
        Some(0)
    } else if cr == 2 {
        Some(1)
    } else {
        None
    }
}

/// The chroma-sample-position rule: an external probe hint is preferred when
/// available; otherwise the frame-level code counts only when nonzero. The
/// chosen code maps 1 to 1 (left) and 3 to 2 (top-left); anything else is
/// absent.
pub open spec fn spec_chroma_loc(hint: Option<i32>, frame_chroma: i32) -> Option<i32> {
    let v = if hint is Some {
        hint
    } else if frame_chroma != 0 {
        Some(frame_chroma)
    } else {
        None
    };
    match v {
        Some(c) => if c == 1 {
            Some(1)
        } else if c == 3 {
            Some(2)
        } else {
            None
        },
        None => None,
    }
}

/// The stride heuristic for bit depth: a luma row of at least two bytes per
/// pixel is taken as 10-bit. An approximation, not an authoritative read of
/// a bit-depth field; isolated here so it can be replaced if the engine
/// exposes a direct field.
pub open spec fn spec_is_10bit(width: u32, luma_stride: usize) -> bool {
    luma_stride >= width * 2
}

/// Whether the stream declares both mastering-display presence flags; the
/// mastering-display string is present exactly then.
pub open spec fn spec_has_mastering(p: StreamProps) -> bool {
    p.has_mastering_primaries != 0 && p.has_mastering_luminance != 0
}

/// The mastering-display string: green, blue, red chromaticity pairs, white
/// point, then max and min luminance, each with four decimal digits.
pub open spec fn spec_mastering_seq(p: StreamProps) -> Seq<char> {
    "G("@ + fixed4_seq(p.green_x as int) + ","@ + fixed4_seq(p.green_y as int) + ")B("@
        + fixed4_seq(p.blue_x as int) + ","@ + fixed4_seq(p.blue_y as int) + ")R("@
        + fixed4_seq(p.red_x as int) + ","@ + fixed4_seq(p.red_y as int) + ")WP("@
        + fixed4_seq(p.white_x as int) + ","@ + fixed4_seq(p.white_y as int) + ")L("@
        + fixed4_seq(p.max_luminance as int) + ","@ + fixed4_seq(p.min_luminance as int) + ")"@
}

/// The content-light string: "max,average" as plain integers.
pub open spec fn spec_content_light_seq(maxv: u32, avg: u32) -> Seq<char> {
    dec_seq(maxv as nat) + ","@ + dec_seq(avg as nat)
}

/// The chroma-sample-position resolution, with the probe hint as an explicit
/// collaborator input; no probe is currently wired in, so callers pass
/// `None`.
pub fn chroma_loc(hint: Option<i32>, frame_chroma: i32) -> (r: Option<i32>)
    ensures
        r == spec_chroma_loc(hint, frame_chroma),
{
    let v: Option<i32> = match hint {
        Some(h) => Some(h),
        None => if frame_chroma != 0 {
            Some(frame_chroma)
        } else {
            None
        },
    };
    match v {
        Some(1) => Some(1),
        Some(3) => Some(2),
        _ => None,
    }
}

/// Chroma sample position for the source at `_path`: the external probe is
/// not wired in, so only the frame-level code decides.
pub fn get_chroma_loc(_path: &str, frame_chroma: i32) -> (r: Option<i32>)
    ensures
        r == spec_chroma_loc(None, frame_chroma),
{
    chroma_loc(None, frame_chroma)
}

/// The resolved matrix-coefficients code.
pub fn matrix_coefficients(frame_cs: i32, stream_cs: i32) -> (r: i32)
    ensures
        r == spec_matrix(frame_cs, stream_cs),
{
    let chosen = if frame_cs == 3 {
        stream_cs
    } else {
        frame_cs
    };
    if chosen == 0 {
        2
    } else {
        chosen
    }
}

/// The stride heuristic for bit depth.
pub fn is_10bit(width: u32, luma_stride: usize) -> (r: bool)
    ensures
        r == spec_is_10bit(width, luma_stride),
{
    (luma_stride as u64) >= (width as u64) * 2
}

/// The color-range mapping.
pub fn color_range_code(cr: i32) -> (r: Option<i32>)
    ensures
        r == spec_color_range(cr),
{
    match cr {
        1 => Some(0),
        2 => Some(1),
        _ => None,
    }
}

/// The mastering-display string of a stream's declared color volume.
pub fn mastering_string(p: &StreamProps) -> (r: String)
    ensures
        r@ == spec_mastering_seq(*p),
{
    let mut s = String::from_str("G(");
    s.append(fixed4_string(p.green_x).as_str());
    s.append(",");
    s.append(fixed4_string(p.green_y).as_str());
    s.append(")B(");
    s.append(fixed4_string(p.blue_x).as_str());
    s.append(",");
    s.append(fixed4_string(p.blue_y).as_str());
    s.append(")R(");
    s.append(fixed4_string(p.red_x).as_str());
    s.append(",");
    s.append(fixed4_string(p.red_y).as_str());
    s.append(")WP(");
    s.append(fixed4_string(p.white_x).as_str());
    s.append(",");
    s.append(fixed4_string(p.white_y).as_str());
    s.append(")L(");
    s.append(fixed4_string(p.max_luminance).as_str());
    s.append(",");
    s.append(fixed4_string(p.min_luminance).as_str());
    s.append(")");
    proof {
        assert(s@ =~= spec_mastering_seq(*p));
    }
    s
}

/// The content-light string of a stream's declared light levels.
pub fn content_light_string(maxv: u32, avg: u32) -> (r: String)
    ensures
        r@ == spec_content_light_seq(maxv, avg),
{
    let mut s = u64_string(maxv as u64);
    s.append(",");
    let a = u64_string(avg as u64);
    s.append(a.as_str());
    proof {
        assert(s@ =~= spec_content_light_seq(maxv, avg));
    }
    s
}

/// Resolves the two descriptors of one video track into the canonical
/// record. `chroma_hint` is the external chroma-location probe's answer;
/// with no probe wired in it is `None`. Every field rule is stated below;
/// the record is computed whole, with no partially populated result.
pub fn get_vidinf(props: &StreamProps, frame: &FrameProps, chroma_hint: Option<i32>) -> (r:
    VidInf)
    ensures
        r.width == frame.encoded_width,
        r.height == frame.encoded_height,
        r.fps_num == props.fps_num,
        r.fps_den == props.fps_den,
        r.frames == props.num_frames,
        r.color_primaries == Some(frame.color_primaries),
        r.transfer_characteristics == Some(frame.transfer_characteristics),
        r.matrix_coefficients == Some(spec_matrix(frame.color_space, props.color_space)),
        r.is_10bit == spec_is_10bit(frame.encoded_width, frame.luma_stride),
        r.color_range == spec_color_range(frame.color_range),
        r.chroma_sample_position == spec_chroma_loc(chroma_hint, frame.chroma_location),
        r.sar_num == (if props.sar_num > 0 {
            Some(props.sar_num as u32)
        } else {
            None::<u32>
        }),
        r.sar_den == (if props.sar_den > 0 {
            Some(props.sar_den as u32)
        } else {
            None::<u32>
        }),
        r.crop_top == props.crop_top,
        r.crop_bottom == props.crop_bottom,
        r.crop_left == props.crop_left,
        r.crop_right == props.crop_right,
        r.is_interlaced == (frame.interlaced_frame != 0),
        r.top_field_first == (if frame.interlaced_frame != 0 {
            Some(frame.top_field_first != 0)
        } else {
            None::<bool>
        }),
        r.stereo_3d_type == props.stereo_3d_type,
        r.stereo_3d_flags == props.stereo_3d_flags,
        spec_has_mastering(*props) ==> (r.mastering_display matches Some(s) && s@
            == spec_mastering_seq(*props)),
        !spec_has_mastering(*props) ==> r.mastering_display is None,
        props.has_content_light != 0 ==> (r.content_light matches Some(s) && s@
            == spec_content_light_seq(props.content_light_max, props.content_light_avg)),
        props.has_content_light == 0 ==> r.content_light is None,
{
    let matrix = matrix_coefficients(frame.color_space, props.color_space);
    let ten_bit = is_10bit(frame.encoded_width, frame.luma_stride);
    let color_range = color_range_code(frame.color_range);
    let chroma_sample_position = chroma_loc(chroma_hint, frame.chroma_location);

    let mastering_display = if props.has_mastering_primaries != 0 && props.has_mastering_luminance
        != 0 {
        Some(mastering_string(props))
    } else {
        None
    };

    let content_light = if props.has_content_light != 0 {
        Some(content_light_string(props.content_light_max, props.content_light_avg))
    } else {
        None
    };

    let sar_num = if props.sar_num > 0 {
        Some(props.sar_num as u32)
    } else {
        None
    };
    let sar_den = if props.sar_den > 0 {
        Some(props.sar_den as u32)
    } else {
        None
    };

    let is_interlaced = frame.interlaced_frame != 0;
    let top_field_first = if is_interlaced {
        Some(frame.top_field_first != 0)
    } else {
        None
    };

    VidInf {
        width: frame.encoded_width,
        height: frame.encoded_height,
        fps_num: props.fps_num,
        fps_den: props.fps_den,
        frames: props.num_frames,
        color_primaries: Some(frame.color_primaries),
        transfer_characteristics: Some(frame.transfer_characteristics),
        matrix_coefficients: Some(matrix),
        is_10bit: ten_bit,
        color_range,
        chroma_sample_position,
        sar_num,
        sar_den,
        crop_top: props.crop_top,
        crop_bottom: props.crop_bottom,
        crop_left: props.crop_left,
        crop_right: props.crop_right,
        is_interlaced,
        top_field_first,
        stereo_3d_type: props.stereo_3d_type,
        stereo_3d_flags: props.stereo_3d_flags,
        mastering_display,
        content_light,
    }
}

} // verus!
