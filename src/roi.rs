//! Region of interest: rectangles on the 16x16 SPAD grid and the sensor's
//! packed centre and size bytes.

use crate::error::Vl53l1xError;
use crate::registers::{
    addr_bytes, i2c_write_u8, is_read_of, read_request, reg_addr, BusRequest, Vl53l1xReg,
};
use vstd::prelude::*;

verus! {

/// Largest coordinate on the grid.
pub const GRID_MAX: u8 = 15;

/// Smallest width and height of a region.
pub const MIN_ROI_SIZE: u8 = 3;

/// A rectangle as (top-left x, top-left y, bottom-right x, bottom-right y).
pub type Roi = (u8, u8, u8, u8);

/// The centre byte of the SPAD at column `x`, row `y`. The upper half of the
/// array (rows 8 to 15) and the lower half use disjoint ranges of codes.
pub open spec fn center_code(x: int, y: int) -> int {
    if y > 7 {
        128 + 8 * x + (15 - y)
    } else {
        8 * (15 - x) + y
    }
}

/// The row encoded by a centre byte.
pub open spec fn center_row(c: int) -> int {
    if c > 127 {
        8 + (255 - c) % 8
    } else {
        c % 8
    }
}

/// The column encoded by a centre byte.
pub open spec fn center_col(c: int) -> int {
    if c > 127 {
        (c - 128) / 8
    } else {
        (127 - c) / 8
    }
}

/// The size byte of a `w` by `h` region: height in the high nibble.
pub open spec fn zone_code(w: int, h: int) -> int {
    16 * h + w
}

/// `(2 * c - s) / 2`, held at zero.
pub open spec fn low_edge(c: int, s: int) -> int {
    if 2 * c >= s {
        (2 * c - s) / 2
    } else {
        0
    }
}

/// The rectangle that a centre byte and a size byte describe.
pub open spec fn roi_of(center: u8, dims: u8) -> Roi {
    let row = center_row(center as int);
    let col = center_col(center as int);
    let h = dims as int / 16;
    let w = dims as int % 16;
    (
        low_edge(col, w) as u8,
        low_edge(row, h) as u8,
        ((2 * col + w) / 2) as u8,
        ((2 * row + h) / 2) as u8,
    )
}

/// A rectangle the sensor accepts: on the grid, at least 3 wide and 3 high.
pub open spec fn valid_roi(r: Roi) -> bool {
    &&& r.0 <= GRID_MAX && r.1 <= GRID_MAX && r.2 <= GRID_MAX && r.3 <= GRID_MAX
    &&& r.2 >= r.0 + MIN_ROI_SIZE
    &&& r.3 >= r.1 + MIN_ROI_SIZE
}

/// The centre of a rectangle, halves rounded up.
pub open spec fn roi_center(r: Roi) -> (int, int) {
    ((r.0 + r.2 + 1) / 2, (r.1 + r.3 + 1) / 2)
}

/// The centre byte of the SPAD at (`x`, `y`).
pub fn spad_center(x: u8, y: u8) -> (r: u8)
    requires
        x <= GRID_MAX,
        y <= GRID_MAX,
    ensures
        r as int == center_code(x as int, y as int),
{
    assert(x << 3u8 == x * 8) by (bit_vector)
        requires
            x <= 15,
    ;
    assert(((15 - x) as u8) << 3u8 == (15 - x) * 8) by (bit_vector)
        requires
            x <= 15,
    ;
    if y > 7 {
        128 + (x << 3) + (15 - y)
    } else {
        ((15 - x) << 3) + y
    }
}

/// The size byte of a `width` by `height` region.
pub fn zone_dims(width: u8, height: u8) -> (r: u8)
    requires
        width <= GRID_MAX,
        height <= GRID_MAX,
    ensures
        r as int == zone_code(width as int, height as int),
{
    assert(height << 4u8 == height * 16) by (bit_vector)
        requires
            height <= 15,
    ;
    (height << 4) + width
}

/// The frame that sets the region's size.
pub fn set_zone_size(width: u8, height: u8) -> (r: Vec<u8>)
    requires
        width <= GRID_MAX,
        height <= GRID_MAX,
    ensures
        r@ == addr_bytes(reg_addr(Vl53l1xReg::RoiConfigUserRoiRequestedGlobalXySize)).push(
            zone_code(width as int, height as int) as u8,
        ),
{
    let dims = zone_dims(width, height);
    i2c_write_u8(Vl53l1xReg::RoiConfigUserRoiRequestedGlobalXySize.addr(), dims)
}

/// The frame that centres the region on the SPAD at (`center_x`, `center_y`).
pub fn set_center(center_x: u8, center_y: u8) -> (r: Vec<u8>)
    requires
        center_x <= GRID_MAX,
        center_y <= GRID_MAX,
    ensures
        r@ == addr_bytes(reg_addr(Vl53l1xReg::RoiConfigUserRoiCentreSpad)).push(
            center_code(center_x as int, center_y as int) as u8,
        ),
{
    let center = spad_center(center_x, center_y);
    i2c_write_u8(Vl53l1xReg::RoiConfigUserRoiCentreSpad.addr(), center)
}

/// The frames that select `roi`: centre first, then size. A rectangle off the
/// grid or narrower or shorter than 3 is refused and nothing is to be sent.
pub fn set_user_roi(roi: Roi) -> (r: Result<Vec<Vec<u8>>, Vl53l1xError>)
    ensures
        !valid_roi(roi) <==> r == Err::<Vec<Vec<u8>>, Vl53l1xError>(Vl53l1xError::InvalidRoi),
        valid_roi(roi) ==> r is Ok,
        r is Ok ==> r->Ok_0@.len() == 2
            && r->Ok_0@[0]@ == addr_bytes(reg_addr(Vl53l1xReg::RoiConfigUserRoiCentreSpad)).push(
                center_code(roi_center(roi).0, roi_center(roi).1) as u8)
            && r->Ok_0@[1]@ == addr_bytes(reg_addr(Vl53l1xReg::RoiConfigUserRoiRequestedGlobalXySize)).push(
                zone_code(roi.2 - roi.0, roi.3 - roi.1) as u8),
{
    let (x0, y0, x1, y1) = roi;
    if x0 > GRID_MAX || y0 > GRID_MAX || x1 > GRID_MAX || y1 > GRID_MAX {
        return Err(Vl53l1xError::InvalidRoi);
    }
    if x1 < x0 || y1 < y0 {
        return Err(Vl53l1xError::InvalidRoi);
    }
    let width = x1 - x0;
    let height = y1 - y0;
    if width < MIN_ROI_SIZE || height < MIN_ROI_SIZE {
        return Err(Vl53l1xError::InvalidRoi);
    }
    let center_x = (x0 + x1 + 1) / 2;
    let center_y = (y0 + y1 + 1) / 2;
    let mut frames: Vec<Vec<u8>> = Vec::new();
    frames.push(set_center(center_x, center_y));
    frames.push(set_zone_size(width, height));
    Ok(frames)
}

/// The exchange that reads the centre byte.
pub fn roi_center_request() -> (r: BusRequest)
    ensures
        is_read_of(r, reg_addr(Vl53l1xReg::RoiConfigUserRoiCentreSpad), 1),
{
    read_request(Vl53l1xReg::RoiConfigUserRoiCentreSpad.addr(), 1)
}

/// The exchange that reads the size byte.
pub fn roi_size_request() -> (r: BusRequest)
    ensures
        is_read_of(r, reg_addr(Vl53l1xReg::RoiConfigUserRoiRequestedGlobalXySize), 1),
{
    read_request(Vl53l1xReg::RoiConfigUserRoiRequestedGlobalXySize.addr(), 1)
}

/// The rectangle described by the centre byte `center` and the size byte
/// `dimensions`, as read back from the sensor.
pub fn get_user_roi(center: u8, dimensions: u8) -> (r: Roi)
    ensures
        r == roi_of(center, dimensions),
{
    let row: u8;
    let col: u8;
    if center > 127 {
        assert(((255 - center) as u8) & 7u8 == ((255 - center) as u8) % 8) by (bit_vector);
        assert(((center - 128) as u8) >> 3u8 == ((center - 128) as u8) / 8) by (bit_vector);
        row = 8 + ((255 - center) & 0x07);
        col = (center - 128) >> 3;
    } else {
        assert(center & 7u8 == center % 8) by (bit_vector);
        assert(((127 - center) as u8) >> 3u8 == ((127 - center) as u8) / 8) by (bit_vector);
        row = center & 0x07;
        col = (127 - center) >> 3;
    }
    assert(dimensions >> 4u8 == dimensions / 16) by (bit_vector);
    assert(dimensions & 15u8 == dimensions % 16) by (bit_vector);
    let height = dimensions >> 4;
    let width = dimensions & 0x0f;
    assert(row <= 15 && col <= 15 && height <= 15 && width <= 15);
    let left = if 2 * col >= width { (2 * col - width) / 2 } else { 0 };
    let top = if 2 * row >= height { (2 * row - height) / 2 } else { 0 };
    (left, top, (2 * col + width) / 2, (2 * row + height) / 2)
}

/// A centre code on the grid decodes to its own column and row.
proof fn center_code_decodes(x: int, y: int)
    requires
        0 <= x <= 15,
        0 <= y <= 15,
    ensures
        0 <= center_code(x, y) <= 255,
        center_row(center_code(x, y)) == y,
        center_col(center_code(x, y)) == x,
{
    let c = center_code(x, y);
    if y > 7 {
        assert((255 - c) % 8 == y - 8);
        assert((c - 128) / 8 == x);
    } else {
        assert(c % 8 == y);
        assert((127 - c) / 8 == x);
    }
}

/// The edges of a span recovered from its rounded-up centre and its size.
proof fn span_edges(a: int, b: int)
    requires
        0 <= a,
        a + 3 <= b <= 15,
    ensures
        low_edge((a + b + 1) / 2, b - a) == a,
        (2 * ((a + b + 1) / 2) + (b - a)) / 2 == b,
{
}

/// A size code splits back into width and height.
proof fn zone_code_decodes(w: int, h: int)
    requires
        0 <= w <= 15,
        0 <= h <= 15,
    ensures
        0 <= zone_code(w, h) <= 255,
        zone_code(w, h) / 16 == h,
        zone_code(w, h) % 16 == w,
{
}

/// Reading back a region that was set gives the rectangle itself: the centre
/// and size bytes that `set_user_roi` writes for a valid rectangle decode to
/// exactly that rectangle (the rounded-up centre loses nothing).
pub proof fn roi_round_trip(roi: Roi)
    requires
        valid_roi(roi),
    ensures
        roi_of(
            center_code(roi_center(roi).0, roi_center(roi).1) as u8,
            zone_code(roi.2 - roi.0, roi.3 - roi.1) as u8,
        ) == roi,
{
    let (cx, cy) = roi_center(roi);
    center_code_decodes(cx, cy);
    zone_code_decodes(roi.2 - roi.0, roi.3 - roi.1);
    span_edges(roi.0 as int, roi.2 as int);
    span_edges(roi.1 as int, roi.3 as int);
}

} // verus!
