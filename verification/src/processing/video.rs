//! The part of the picture that is converted, and what came of converting it.
use crate::error::{HResult, WindowsError};
use crate::processing::attributes::{
    id, id_value, pair, pair_value, Attribute, AttributeKey, AttributeValue, INTERLACE_MIXED,
    INTERLACE_PROGRESSIVE, MEDIA_TYPE_VIDEO, VIDEO_FORMAT_ARGB32, VIDEO_FORMAT_NV12,
};
use crate::types::geometry::{as_signed, to_signed};
use crate::types::Rect;
use vstd::prelude::*;

verus! {

/// The converter needs another picture before it gives one back.
pub const MF_E_TRANSFORM_NEED_MORE_INPUT: HResult = -1072861838;

/// Something happened that should not.
pub const MF_E_UNEXPECTED: HResult = -1072875845;

/// The larger of two numbers.
pub open spec fn larger(a: int, b: int) -> int {
    if a >= b {
        a
    } else {
        b
    }
}

/// The smaller of two numbers.
pub open spec fn smaller(a: int, b: int) -> int {
    if a <= b {
        a
    } else {
        b
    }
}

/// Whether the edges of a window can be told.
pub open spec fn edges_fit(place: (i32, i32), size: (u32, u32)) -> bool {
    &&& i32::MIN <= place.0 + as_signed(size.0) <= i32::MAX
    &&& i32::MIN <= place.1 + as_signed(size.1) <= i32::MAX
}

/// Computes `edges_fit`.
pub fn has_edges(place: (i32, i32), size: (u32, u32)) -> (r: bool)
    ensures
        r == edges_fit(place, size),
{
    let right: i64 = place.0 as i64 + to_signed(size.0) as i64;
    let bottom: i64 = place.1 as i64 + to_signed(size.1) as i64;
    i32::MIN as i64 <= right && right <= i32::MAX as i64 && i32::MIN as i64 <= bottom && bottom
        <= i32::MAX as i64
}

/// Whether a rectangle is the part of a window that lies in the picture.
pub open spec fn is_crop(
    input: (u32, u32),
    place: (i32, i32),
    size: (u32, u32),
    r: Rect,
) -> bool {
    &&& r.left == larger(place.0 as int, 0)
    &&& r.top == larger(place.1 as int, 0)
    &&& r.right == smaller(place.0 + as_signed(size.0), as_signed(input.0))
    &&& r.bottom == smaller(place.1 + as_signed(size.1), as_signed(input.1))
}

/// Whether a rectangle is the whole picture.
pub open spec fn is_whole(input: (u32, u32), r: Rect) -> bool {
    &&& r.left == 0
    &&& r.top == 0
    &&& r.right == as_signed(input.0)
    &&& r.bottom == as_signed(input.1)
}

/// The part of a window that lies in the picture.
pub fn source_rectangle(input: (u32, u32), place: (i32, i32), size: (u32, u32)) -> (r: Rect)
    requires
        edges_fit(place, size),
    ensures
        is_crop(input, place, size, r),
{
    let right: i32 = place.0 + to_signed(size.0);
    let bottom: i32 = place.1 + to_signed(size.1);
    let width: i32 = to_signed(input.0);
    let height: i32 = to_signed(input.1);
    Rect {
        left: if place.0 >= 0 {
            place.0
        } else {
            0
        },
        top: if place.1 >= 0 {
            place.1
        } else {
            0
        },
        right: if right <= width {
            right
        } else {
            width
        },
        bottom: if bottom <= height {
            bottom
        } else {
            height
        },
    }
}

/// The whole picture.
pub fn full_rectangle(input: (u32, u32)) -> (r: Rect)
    ensures
        is_whole(input, r),
{
    Rect { left: 0, top: 0, right: to_signed(input.0), bottom: to_signed(input.1) }
}

/// How to change the part of the picture that is converted.
#[derive(Debug, Clone, Copy, PartialEq, Eq, Structural)]
pub enum RectangleUpdate {
    /// Not at all.
    Keep,
    /// To the part that the window covers.
    Crop(Rect),
    /// To the whole picture.
    Whole(Rect),
}

/// Whether `r` is how to change the part of the picture that is converted: to
/// the part that the window covers where it is no larger than the picture, and
/// to the whole picture where it is.
pub open spec fn is_update(
    input: (u32, u32),
    place: Option<(i32, i32)>,
    size: Option<(u32, u32)>,
    r: RectangleUpdate,
) -> bool {
    match (place, size) {
        (Some(place), Some(size)) => if size.0 <= input.0 && size.1 <= input.1 {
            r matches RectangleUpdate::Crop(rect) && is_crop(input, place, size, rect)
        } else {
            r matches RectangleUpdate::Whole(rect) && is_whole(input, rect)
        },
        _ => r is Keep,
    }
}

/// Whether the part of the picture that a window covers can be told.
pub open spec fn update_fits(
    input: (u32, u32),
    place: Option<(i32, i32)>,
    size: Option<(u32, u32)>,
) -> bool {
    match (place, size) {
        (Some(place), Some(size)) => size.0 <= input.0 && size.1 <= input.1 ==> edges_fit(
            place,
            size,
        ),
        _ => true,
    }
}

/// How to change the part of the picture that is converted.
pub fn rectangle_update(
    input: (u32, u32),
    place: Option<(i32, i32)>,
    size: Option<(u32, u32)>,
) -> (r: RectangleUpdate)
    requires
        update_fits(input, place, size),
    ensures
        is_update(input, place, size, r),
{
    match (place, size) {
        (Some(place), Some(size)) => {
            if size.0 <= input.0 && size.1 <= input.1 {
                RectangleUpdate::Crop(source_rectangle(input, place, size))
            } else {
                RectangleUpdate::Whole(full_rectangle(input))
            }
        },
        _ => RectangleUpdate::Keep,
    }
}

/// The part of the picture that is converted: that which the window covers
/// where its place and size are known and it is no larger than the picture,
/// and the whole picture otherwise.
pub fn calculate_source_rect(
    input_width: u32,
    input_height: u32,
    place: Option<(i32, i32)>,
    size: Option<(u32, u32)>,
) -> (r: Rect)
    requires
        update_fits((input_width, input_height), place, size),
    ensures
        match (place, size) {
            (Some(place), Some(size)) => if size.0 <= input_width && size.1 <= input_height {
                is_crop((input_width, input_height), place, size, r)
            } else {
                is_whole((input_width, input_height), r)
            },
            _ => is_whole((input_width, input_height), r),
        },
{
    match rectangle_update((input_width, input_height), place, size) {
        RectangleUpdate::Crop(rect) => rect,
        RectangleUpdate::Whole(rect) => rect,
        RectangleUpdate::Keep => full_rectangle((input_width, input_height)),
    }
}

/// The rectangle that a fresh converter is to be set to, if any. It starts out
/// with the whole picture.
pub fn initial_rectangle(
    input: (u32, u32),
    place: Option<(i32, i32)>,
    size: Option<(u32, u32)>,
) -> (r: Option<Rect>)
    requires
        update_fits(input, place, size),
    ensures
        match (place, size) {
            (Some(place), Some(size)) => if size.0 <= input.0 && size.1 <= input.1 {
                r matches Some(rect) && is_crop(input, place, size, rect)
            } else {
                r is None
            },
            _ => r is None,
        },
{
    match rectangle_update(input, place, size) {
        RectangleUpdate::Crop(rect) => Some(rect),
        _ => None,
    }
}

/// Whether the converter counts as changed, from whether it was set to the
/// rectangle. Setting it to the whole picture counts in any case.
pub fn update_video_converter(update: &RectangleUpdate, was_set: bool) -> (r: bool)
    ensures
        r == match *update {
            RectangleUpdate::Keep => false,
            RectangleUpdate::Crop(_) => was_set,
            RectangleUpdate::Whole(_) => true,
        },
{
    match update {
        RectangleUpdate::Keep => false,
        RectangleUpdate::Crop(_) => was_set,
        RectangleUpdate::Whole(_) => true,
    }
}

/// A window that lies within the picture is converted whole.
pub proof fn window_inside_is_kept(
    input: (u32, u32),
    place: (i32, i32),
    size: (u32, u32),
    r: Rect,
)
    requires
        is_crop(input, place, size, r),
        input.0 <= i32::MAX,
        input.1 <= i32::MAX,
        size.0 <= input.0,
        size.1 <= input.1,
        0 <= place.0,
        0 <= place.1,
        place.0 + size.0 <= input.0,
        place.1 + size.1 <= input.1,
    ensures
        r.left == place.0,
        r.top == place.1,
        r.right - r.left == size.0,
        r.bottom - r.top == size.1,
{
}

/// The part of the picture that is converted never goes beyond the picture.
pub proof fn crop_stays_inside(input: (u32, u32), place: (i32, i32), size: (u32, u32), r: Rect)
    requires
        is_crop(input, place, size, r),
        input.0 <= i32::MAX,
        input.1 <= i32::MAX,
    ensures
        0 <= r.left,
        0 <= r.top,
        r.right <= input.0,
        r.bottom <= input.1,
{
}

/// The interlace mode for pictures whose lines come at once, or may not.
pub open spec fn interlace_mode(is_progressive: bool) -> u32 {
    if is_progressive {
        INTERLACE_PROGRESSIVE
    } else {
        INTERLACE_MIXED
    }
}

/// The attributes that the pictures before and after the conversion share.
pub open spec fn common_attributes(is_progressive: bool) -> Seq<Attribute> {
    seq![
        (AttributeKey::InterlaceMode, AttributeValue::Number(interlace_mode(is_progressive))),
        (AttributeKey::PixelAspectRatio, pair_value(1, 1)),
    ]
}

/// Adds the attributes that the pictures before and after the conversion share.
fn set_common_attributes(list: &mut Vec<Attribute>, is_progressive: bool)
    ensures
        final(list)@ == old(list)@ + common_attributes(is_progressive),
{
    let mode: u32 = if is_progressive {
        INTERLACE_PROGRESSIVE
    } else {
        INTERLACE_MIXED
    };
    list.push((AttributeKey::InterlaceMode, AttributeValue::Number(mode)));
    list.push((AttributeKey::PixelAspectRatio, pair(1, 1)));
    assert(list@ =~= old(list)@ + common_attributes(is_progressive));
}

/// The attributes of the pictures after the conversion.
pub fn converter_output_type(output_width: u32, output_height: u32) -> (r: Vec<Attribute>)
    ensures
        r@ == seq![
            (AttributeKey::MajorType, id_value(MEDIA_TYPE_VIDEO)),
            (AttributeKey::Subtype, id_value(VIDEO_FORMAT_NV12)),
            (AttributeKey::InterlaceMode, AttributeValue::Number(INTERLACE_PROGRESSIVE)),
            (AttributeKey::PixelAspectRatio, pair_value(1, 1)),
            (AttributeKey::FrameSize, pair_value(output_width, output_height)),
            (AttributeKey::DefaultStride, AttributeValue::Number(output_width)),
        ],
{
    let mut list: Vec<Attribute> = Vec::new();
    list.push((AttributeKey::MajorType, id(MEDIA_TYPE_VIDEO)));
    list.push((AttributeKey::Subtype, id(VIDEO_FORMAT_NV12)));
    set_common_attributes(&mut list, true);
    list.push((AttributeKey::FrameSize, pair(output_width, output_height)));
    list.push((AttributeKey::DefaultStride, AttributeValue::Number(output_width)));
    list
}

/// The attributes of the pictures before the conversion, which have four bytes
/// per pixel.
pub fn converter_input_type(input_width: u32, input_height: u32) -> (r: Vec<Attribute>)
    requires
        input_width * 4 <= u32::MAX,
    ensures
        r@ == seq![
            (AttributeKey::MajorType, id_value(MEDIA_TYPE_VIDEO)),
            (AttributeKey::Subtype, id_value(VIDEO_FORMAT_ARGB32)),
            (AttributeKey::InterlaceMode, AttributeValue::Number(INTERLACE_PROGRESSIVE)),
            (AttributeKey::PixelAspectRatio, pair_value(1, 1)),
            (AttributeKey::FrameSize, pair_value(input_width, input_height)),
            (AttributeKey::DefaultStride, AttributeValue::Number((input_width * 4) as u32)),
        ],
{
    let mut list: Vec<Attribute> = Vec::new();
    list.push((AttributeKey::MajorType, id(MEDIA_TYPE_VIDEO)));
    list.push((AttributeKey::Subtype, id(VIDEO_FORMAT_ARGB32)));
    set_common_attributes(&mut list, true);
    list.push((AttributeKey::FrameSize, pair(input_width, input_height)));
    list.push((AttributeKey::DefaultStride, AttributeValue::Number(input_width * 4)));
    list
}

/// What came of converting a picture.
#[derive(Debug)]
pub enum Conversion {
    /// The picture is there.
    Converted,
    /// It failed.
    Failed(WindowsError),
    /// It failed, and the device is to be asked whether it is still there.
    AskDevice(WindowsError),
}

/// What came of converting a picture, from whether the converter gave one back.
///
/// It is a failure that there is none, and that the converter needs more
/// pictures. After any other failure the device is to be asked.
pub fn conversion_outcome(result: Result<bool, WindowsError>) -> (r: Conversion)
    ensures
        match result {
            Ok(given) => if given {
                r is Converted
            } else {
                r matches Conversion::Failed(error) && error.code == MF_E_UNEXPECTED
                    && error.message@ == "ProcessOutput Ok but sample missing"@
            },
            Err(error) => if error.code == MF_E_TRANSFORM_NEED_MORE_INPUT {
                r == Conversion::Failed(error)
            } else {
                r == Conversion::AskDevice(error)
            },
        },
{
    match result {
        Ok(given) => {
            if given {
                Conversion::Converted
            } else {
                Conversion::Failed(
                    WindowsError::new(
                        MF_E_UNEXPECTED,
                        "ProcessOutput Ok but sample missing".to_owned(),
                    ),
                )
            }
        },
        Err(error) => {
            if error.code == MF_E_TRANSFORM_NEED_MORE_INPUT {
                Conversion::Failed(error)
            } else {
                Conversion::AskDevice(error)
            }
        },
    }
}

/// The error of a conversion that failed, from what the device says: why it is
/// gone, where it is, and the error of the conversion otherwise.
pub fn conversion_error(error: WindowsError, device: Result<(), WindowsError>) -> (r: WindowsError)
    ensures
        r == match device {
            Ok(_) => error,
            Err(reason) => reason,
        },
{
    match device {
        Ok(_) => error,
        Err(reason) => reason,
    }
}

/// The part of the picture that is converted is what the window and the picture
/// share, point by point.
pub proof fn crop_is_what_window_and_picture_share(
    input: (u32, u32),
    place: (i32, i32),
    size: (u32, u32),
    r: Rect,
    x: int,
    y: int,
)
    requires
        is_crop(input, place, size, r),
        input.0 <= i32::MAX,
        input.1 <= i32::MAX,
        size.0 <= i32::MAX,
        size.1 <= i32::MAX,
    ensures
        (r.left <= x < r.right && r.top <= y < r.bottom) <==> {
            &&& 0 <= x < input.0
            &&& 0 <= y < input.1
            &&& place.0 <= x < place.0 + size.0
            &&& place.1 <= y < place.1 + size.1
        },
{
}

/// A window that is no larger than the picture in both ways is cut out. For one
/// that is larger in either way the whole picture is taken. Where it is not known
/// where the window is or how large, nothing is changed.
pub proof fn window_decides_the_part(
    input: (u32, u32),
    place: Option<(i32, i32)>,
    size: Option<(u32, u32)>,
    r: RectangleUpdate,
)
    requires
        is_update(input, place, size, r),
        input.0 <= i32::MAX,
        input.1 <= i32::MAX,
    ensures
        place is None || size is None <==> r is Keep,
        r matches RectangleUpdate::Whole(rect) ==> {
            &&& rect == (Rect { left: 0, top: 0, right: input.0 as i32, bottom: input.1 as i32 })
            &&& size->Some_0.0 > input.0 || size->Some_0.1 > input.1
        },
        r matches RectangleUpdate::Crop(rect) ==> {
            &&& size->Some_0.0 <= input.0
            &&& size->Some_0.1 <= input.1
            &&& is_crop(input, place->Some_0, size->Some_0, rect)
        },
{
}

} // verus!
