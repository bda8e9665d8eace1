//! Register values for a controller's RAM window and write cursor.
//!
//! One RAM byte holds eight horizontal pixels, so X is addressed in bytes:
//! the pixel value divided by eight, rounded down. Y is addressed in pixels
//! and sent as a low and a high byte. Every register field is one byte wide
//! and keeps the low eight bits of its value.
use vstd::prelude::*;
use crate::error::Error;

verus! {

/// A rectangle of pixels: its top-left corner and its size.
#[derive(Clone, Copy, PartialEq, Eq, Structural, Debug)]
pub struct Rectangle {
    pub x: u32,
    pub y: u32,
    pub width: u32,
    pub height: u32,
}

impl Rectangle {
    /// The far edges lie strictly beyond the near ones, in `u32`: the
    /// rectangle has a width and a height, and neither sum overflows.
    pub open spec fn ordered(self) -> bool {
        &&& self.x < self.x + self.width <= u32::MAX
        &&& self.y < self.y + self.height <= u32::MAX
    }

    /// The rectangle lies on a panel of the given size.
    pub open spec fn within(self, panel_width: u32, panel_height: u32) -> bool {
        &&& self.x + self.width <= panel_width
        &&& self.y + self.height <= panel_height
    }
}

/// The fields of the RAM window registers.
#[derive(Clone, Copy, PartialEq, Eq, Structural, Debug)]
pub struct Window {
    /// First RAM byte of a row.
    pub x_start_byte: u8,
    /// Last RAM byte of a row.
    pub x_end_byte: u8,
    /// Low byte of the first row.
    pub y_start_low: u8,
    /// High byte of the first row.
    pub y_start_high: u8,
    /// Low byte of the row that ends the window.
    pub y_end_low: u8,
    /// High byte of the row that ends the window.
    pub y_end_high: u8,
}

/// The fields of the RAM address counter registers.
#[derive(Clone, Copy, PartialEq, Eq, Structural, Debug)]
pub struct Counter {
    /// RAM byte in which the cursor stands.
    pub x_byte: u8,
    /// Low byte of the cursor's row.
    pub y_low: u8,
    /// High byte of the cursor's row.
    pub y_high: u8,
}

/// The RAM byte that holds pixel column `x`, as a register field.
pub open spec fn byte_column(x: int) -> int {
    (x / 8) % 256
}

/// The low byte of a row number.
pub open spec fn low_byte(y: int) -> int {
    y % 256
}

/// The high byte of a row number, as a register field.
pub open spec fn high_byte(y: int) -> int {
    (y / 256) % 256
}

/// The window registers for a rectangle that is [`Rectangle::ordered`].
pub open spec fn window_of(rect: Rectangle) -> Window {
    Window {
        x_start_byte: byte_column(rect.x as int) as u8,
        x_end_byte: byte_column(rect.x + rect.width - 1) as u8,
        y_start_low: low_byte(rect.y as int) as u8,
        y_start_high: high_byte(rect.y as int) as u8,
        y_end_low: low_byte(rect.y + rect.height) as u8,
        y_end_high: high_byte(rect.y + rect.height) as u8,
    }
}

/// The far corner lies strictly beyond the near one.
pub open spec fn edges_ordered(start_x: u32, start_y: u32, end_x: u32, end_y: u32) -> bool {
    start_x < end_x && start_y < end_y
}

/// The window registers between a near corner and a far corner given as
/// the last column and the end row.
pub open spec fn edge_window(start_x: u32, start_y: u32, end_x: u32, end_y: u32) -> Window {
    Window {
        x_start_byte: byte_column(start_x as int) as u8,
        x_end_byte: byte_column(end_x as int) as u8,
        y_start_low: low_byte(start_y as int) as u8,
        y_start_high: high_byte(start_y as int) as u8,
        y_end_low: low_byte(end_y as int) as u8,
        y_end_high: high_byte(end_y as int) as u8,
    }
}

/// The counter registers for a cursor at pixel `(x, y)`.
pub open spec fn counter_of(x: u32, y: u32) -> Counter {
    Counter {
        x_byte: byte_column(x as int) as u8,
        y_low: low_byte(y as int) as u8,
        y_high: high_byte(y as int) as u8,
    }
}

/// The pixel column just beyond the last RAM byte that a rectangle
/// touches.
pub open spec fn aligned_end(rect: Rectangle) -> int {
    ((rect.x + rect.width - 1) / 8 + 1) * 8
}

/// The rectangle that a controller in fact addresses for `rect`: the same
/// rows, and the columns widened to whole RAM bytes.
pub open spec fn aligned_of(rect: Rectangle) -> Rectangle {
    Rectangle {
        x: (rect.x / 8 * 8) as u32,
        y: rect.y,
        width: (aligned_end(rect) - rect.x / 8 * 8) as u32,
        height: rect.height,
    }
}

/// The number of bytes in one plane of a `width` by `height` area: each row
/// takes a whole number of bytes.
pub open spec fn plane_len(width: u32, height: u32) -> int {
    ((width + 7) / 8) * height
}

pub(crate) fn column_field(x: u32) -> (b: u8)
    ensures
        b == byte_column(x as int),
{
    let v: u32 = (x >> 3) & 0xFF;
    assert(v == (x / 8) % 256 && v < 256) by (bit_vector)
        requires
            v == (x >> 3) & 0xFF,
    ;
    v as u8
}

pub(crate) fn low_field(y: u32) -> (b: u8)
    ensures
        b == low_byte(y as int),
{
    let v: u32 = y & 0xFF;
    assert(v == y % 256 && v < 256) by (bit_vector)
        requires
            v == y & 0xFF,
    ;
    v as u8
}

pub(crate) fn high_field(y: u32) -> (b: u8)
    ensures
        b == high_byte(y as int),
{
    let v: u32 = (y >> 8) & 0xFF;
    assert(v == (y / 256) % 256 && v < 256) by (bit_vector)
        requires
            v == (y >> 8) & 0xFF,
    ;
    v as u8
}

/// Turns a rectangle into the window registers. The X range is widened to
/// whole bytes; the Y range runs from the first row to `y + height`.
///
/// A rectangle that is not [`Rectangle::ordered`] is refused.
pub fn compute_window(rect: Rectangle) -> (r: Result<Window, Error>)
    ensures
        rect.ordered() ==> r == Ok::<Window, Error>(window_of(rect)),
        !rect.ordered() ==> r == Err::<Window, Error>(Error::InvalidWindow),
{
    if rect.width == 0 || rect.height == 0 || rect.width > u32::MAX - rect.x || rect.height
        > u32::MAX - rect.y {
        return Err(Error::InvalidWindow);
    }
    Ok(window_fields(rect.x, rect.y, rect.x + (rect.width - 1), rect.y + rect.height))
}

/// The window registers between two corners, whatever the corners are.
pub fn window_fields(start_x: u32, start_y: u32, end_x: u32, end_y: u32) -> (w: Window)
    ensures
        w == edge_window(start_x, start_y, end_x, end_y),
{
    Window {
        x_start_byte: column_field(start_x),
        x_end_byte: column_field(end_x),
        y_start_low: low_field(start_y),
        y_start_high: high_field(start_y),
        y_end_low: low_field(end_y),
        y_end_high: high_field(end_y),
    }
}

/// Turns two corners into the window registers: the near corner, the last
/// column and the end row, all in pixels. The columns are widened to whole
/// bytes.
///
/// Corners that are not [`edges_ordered`] are refused.
pub fn compute_edge_window(start_x: u32, start_y: u32, end_x: u32, end_y: u32) -> (r: Result<
    Window,
    Error,
>)
    ensures
        edges_ordered(start_x, start_y, end_x, end_y) ==> r == Ok::<Window, Error>(
            edge_window(start_x, start_y, end_x, end_y),
        ),
        !edges_ordered(start_x, start_y, end_x, end_y) ==> r == Err::<Window, Error>(
            Error::InvalidWindow,
        ),
{
    if start_x < end_x && start_y < end_y {
        Ok(window_fields(start_x, start_y, end_x, end_y))
    } else {
        Err(Error::InvalidWindow)
    }
}

/// Widens a rectangle to the whole RAM bytes that it touches, so that a
/// caller sees what will be addressed and sizes its buffer by it.
///
/// A rectangle that is not [`Rectangle::ordered`] is refused, and so is one
/// whose widened far edge does not fit `u32`.
pub fn byte_aligned(rect: Rectangle) -> (r: Result<Rectangle, Error>)
    ensures
        rect.ordered() && aligned_end(rect) <= u32::MAX ==> r == Ok::<Rectangle, Error>(
            aligned_of(rect),
        ),
        !(rect.ordered() && aligned_end(rect) <= u32::MAX) ==> r == Err::<Rectangle, Error>(
            Error::InvalidWindow,
        ),
{
    if rect.width == 0 || rect.height == 0 || rect.width > u32::MAX - rect.x || rect.height
        > u32::MAX - rect.y {
        return Err(Error::InvalidWindow);
    }
    let first: u32 = rect.x / 8 * 8;
    let last_byte: u32 = (rect.x + (rect.width - 1)) / 8;
    if last_byte >= u32::MAX / 8 {
        return Err(Error::InvalidWindow);
    }
    let end: u32 = (last_byte + 1) * 8;
    Ok(Rectangle { x: first, y: rect.y, width: end - first, height: rect.height })
}

/// Turns a cursor position into the counter registers, with X rounded down
/// to its byte as in [`compute_window`].
pub fn compute_counter(x: u32, y: u32) -> (c: Counter)
    ensures
        c == counter_of(x, y),
{
    Counter { x_byte: column_field(x), y_low: low_field(y), y_high: high_field(y) }
}

/// The size of the buffer that fills one plane of a `width` by `height`
/// area, or `None` if that size does not fit `usize`.
pub fn plane_size(width: u32, height: u32) -> (n: Option<usize>)
    ensures
        plane_len(width, height) <= usize::MAX ==> n == Some(plane_len(width, height) as usize),
        plane_len(width, height) > usize::MAX ==> n.is_none(),
{
    let row: u64 = (width as u64 + 7) / 8;
    let rows: u64 = height as u64;
    assert(row * rows <= 0x2000_0000 * 0x1_0000_0000) by (nonlinear_arith)
        requires
            row <= 0x2000_0000,
            rows <= 0x1_0000_0000,
    ;
    let total: u64 = row * rows;
    if total > usize::MAX as u64 {
        None
    } else {
        Some(total as usize)
    }
}

/// The window of a rectangle is the window between its corner, its last
/// column `x + width - 1` and its end row `y + height`.
pub proof fn lemma_window_of_rectangle_is_edge_window(rect: Rectangle)
    requires
        rect.ordered(),
    ensures
        window_of(rect) == edge_window(
            rect.x,
            rect.y,
            (rect.x + rect.width - 1) as u32,
            (rect.y + rect.height) as u32,
        ),
{
}

/// A rectangle without width or height has no window.
pub proof fn lemma_empty_rectangle_is_not_ordered(rect: Rectangle)
    requires
        rect.width == 0 || rect.height == 0,
    ensures
        !rect.ordered(),
{
}

/// Where the X range fits the one-byte register fields, the window starts
/// at the byte that holds `x` and ends at the byte that holds the last
/// pixel, and those bytes cover every pixel asked for. With `x` on a byte
/// boundary the window starts exactly at `x`.
pub proof fn lemma_window_covers_rectangle(rect: Rectangle)
    requires
        rect.ordered(),
        rect.x + rect.width <= 2048,
    ensures
        window_of(rect).x_start_byte == rect.x / 8,
        window_of(rect).x_end_byte == (rect.x + rect.width - 1) / 8,
        8 * window_of(rect).x_start_byte <= rect.x,
        rect.x + rect.width <= 8 * (window_of(rect).x_end_byte + 1),
        rect.x % 8 == 0 ==> 8 * window_of(rect).x_start_byte == rect.x,
        window_of(rect).x_start_byte <= window_of(rect).x_end_byte,
        8 * (window_of(rect).x_end_byte + 1) < rect.x + rect.width + 8,
{
}

/// Where the far row fits the two register bytes, the low and high bytes
/// of the window's rows put together give `y` and `y + height`.
pub proof fn lemma_window_rows(rect: Rectangle)
    requires
        rect.ordered(),
        rect.y + rect.height < 65536,
    ensures
        window_of(rect).y_start_low + 256 * window_of(rect).y_start_high == rect.y,
        window_of(rect).y_end_low + 256 * window_of(rect).y_end_high == rect.y + rect.height,
{
}

/// The widened rectangle contains the one it was made from, adds fewer
/// than eight columns on either side, starts and ends on byte boundaries,
/// and has the same window.
pub proof fn lemma_aligned_contains_rectangle(rect: Rectangle)
    requires
        rect.ordered(),
        aligned_end(rect) <= u32::MAX,
    ensures
        aligned_of(rect).ordered(),
        aligned_of(rect).x <= rect.x < aligned_of(rect).x + 8,
        rect.x + rect.width <= aligned_of(rect).x + aligned_of(rect).width < rect.x + rect.width
            + 8,
        aligned_of(rect).x % 8 == 0,
        aligned_of(rect).width % 8 == 0,
        window_of(aligned_of(rect)) == window_of(rect),
        plane_len(aligned_of(rect).width, rect.height) == (aligned_of(rect).width / 8)
            * rect.height,
{
}

} // verus!
