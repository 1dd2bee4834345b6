//! Windows of Haribote OS tasks: their geometry, and drawing into the
//! window buffers that the tasks keep in their data segments.

use vstd::prelude::*;
use crate::haribote::lang::{JisChar, JisChars, LangMode, spec_jis_char};

verus! {

/// The colour of palette entry `c`, as `0xAABBGGRR`: 16 fixed colours, then
/// a 6x6x6 colour cube; the entries after it are black and transparent.
pub open spec fn palette(c: u8) -> u32 {
    if c < 16 {
        let (r, g, b): (int, int, int) = if c == 0 {
            (0x00, 0x00, 0x00)
        } else if c == 1 {
            (0xff, 0x00, 0x00)
        } else if c == 2 {
            (0x00, 0xff, 0x00)
        } else if c == 3 {
            (0xff, 0xff, 0x00)
        } else if c == 4 {
            (0x00, 0x00, 0xff)
        } else if c == 5 {
            (0xff, 0x00, 0xff)
        } else if c == 6 {
            (0x00, 0xff, 0xff)
        } else if c == 7 {
            (0xff, 0xff, 0xff)
        } else if c == 8 {
            (0xc6, 0xc6, 0xc6)
        } else if c == 9 {
            (0x84, 0x00, 0x00)
        } else if c == 10 {
            (0x00, 0x84, 0x00)
        } else if c == 11 {
            (0x84, 0x84, 0x00)
        } else if c == 12 {
            (0x00, 0x00, 0x84)
        } else if c == 13 {
            (0x84, 0x00, 0x84)
        } else if c == 14 {
            (0x00, 0x84, 0x84)
        } else {
            (0x84, 0x84, 0x84)
        };
        (0xff00_0000 + r + g * 0x100 + b * 0x1_0000) as u32
    } else if c < 232 {
        let i = c - 16;
        (0xff00_0000 + (i % 6) * 51 + ((i / 6) % 6) * 51 * 0x100 + (i / 36) * 51 * 0x1_0000) as u32
    } else {
        0
    }
}

/// The colour of palette entry `c`, as `0xAABBGGRR`.
pub fn palette_color(c: u8) -> (r: u32)
    ensures
        r == palette(c),
{
    if c < 16 {
        let table: [u32; 16] = [
            0xff00_0000, 0xff00_00ff, 0xff00_ff00, 0xff00_ffff, 0xffff_0000, 0xffff_00ff,
            0xffff_ff00, 0xffff_ffff, 0xffc6_c6c6, 0xff00_0084, 0xff00_8400, 0xff00_8484,
            0xff84_0000, 0xff84_0084, 0xff84_8400, 0xff84_8484,
        ];
        table[c as usize]
    } else if c < 232 {
        let i = (c - 16) as u32;
        0xff00_0000 + (i % 6) * 51 + ((i / 6) % 6) * 51 * 0x100 + (i / 36) * 51 * 0x1_0000
    } else {
        0
    }
}

/// The identifier that the host gives a window.
#[derive(Debug, Clone, Copy, PartialEq, Eq, Structural)]
pub struct WindowId(pub u32);

/// The size of a window.
#[derive(Debug, Clone, Copy, PartialEq, Eq, Structural)]
pub struct Size {
    pub width: u32,
    pub height: u32,
}

impl Size {
    pub fn new(width: u32, height: u32) -> (r: Self)
        ensures
            r == (Size { width, height }),
    {
        Self { width, height }
    }
}

/// A point of a window.
#[derive(Debug, Clone, Copy, PartialEq, Eq, Structural)]
pub struct Point {
    pub x: i32,
    pub y: i32,
}

impl Point {
    pub fn new(x: i32, y: i32) -> (r: Self)
        ensures
            r == (Point { x, y }),
    {
        Self { x, y }
    }

    /// The origin.
    pub fn zero() -> (r: Self)
        ensures
            r == (Point { x: 0, y: 0 }),
    {
        Self { x: 0, y: 0 }
    }

    /// The bottom-right point of a rectangle of `size` whose top-left point is `self`.
    pub fn right_bottom(&self, size: Size) -> (r: Self)
        ensures
            r.x == (self.x + size.width as i32 - 1) as i32,
            r.y == (self.y + size.height as i32 - 1) as i32,
    {
        Self {
            x: (self.x as i64 + size.width as i32 as i64 - 1) as i32,
            y: (self.y as i64 + size.height as i32 as i64 - 1) as i32,
        }
    }

    /// The sum of two points, wrapping around at 32 bits.
    pub fn plus(self, other: Self) -> (r: Self)
        ensures
            r.x == (self.x + other.x) as i32,
            r.y == (self.y + other.y) as i32,
    {
        Self { x: (self.x as i64 + other.x as i64) as i32, y: (self.y as i64 + other.y as i64) as i32 }
    }
}

/// The pixels of a window buffer to send to the host: where they go in the
/// window's client area, and their colours as RGBA bytes.
pub struct Redraw {
    pub window_id: WindowId,
    pub x: u32,
    pub y: u32,
    pub width: u32,
    pub height: u32,
    pub rgba: Vec<u8>,
}

/// The background colour of a new window.
pub const WINDOW_BGCOLOR: u8 = 8;
/// The width of the left and right frame.
pub const WINDOW_ADJUST_X: i32 = 2;
/// The height of the title bar.
pub const WINDOW_ADJUST_TOP: i32 = 22;
/// The height of the bottom frame.
pub const WINDOW_ADJUST_BOTTOM: i32 = 2;

/// A window of a task, whose pixels the task keeps in its data segment.
pub struct HariWindow {
    pub window_id: WindowId,
    pub size: Size,
    pub buffer_ptr: u32,
    pub buffer_len: usize,
}

/// The drawable area of a window of `size`: inside its frame and below its
/// title bar, as left, top, right and bottom, all inclusive.
pub open spec fn client_area(size: Size) -> (int, int, int, int) {
    (2, 22, size.width as i32 - 2 - 1, size.height as i32 - 2 - 1)
}

/// The smaller of two numbers.
pub open spec fn min(a: int, b: int) -> int {
    if a <= b { a } else { b }
}

/// The larger of two numbers.
pub open spec fn max(a: int, b: int) -> int {
    if a >= b { a } else { b }
}

/// The part of the rectangle with corners `a` and `b` in the drawable area of
/// a window of `size`; `None` when they do not meet.
pub open spec fn spec_clip_rect(size: Size, a: Point, b: Point) -> Option<(Point, Point)> {
    let (left, top, right, bottom) = client_area(size);
    let min_x = min(a.x as int, b.x as int);
    let max_x = max(a.x as int, b.x as int);
    let min_y = min(a.y as int, b.y as int);
    let max_y = max(a.y as int, b.y as int);
    if min_x > right || max_x < left || min_y > bottom || max_y < top {
        None
    } else {
        Some((
            Point { x: max(min_x, left) as i32, y: max(min_y, top) as i32 },
            Point { x: min(max_x, right) as i32, y: min(max_y, bottom) as i32 },
        ))
    }
}

/// The part of a rectangle that clipping keeps lies in the drawable area and
/// in the rectangle.
pub proof fn lemma_clip_inside(size: Size, a: Point, b: Point)
    ensures
        spec_clip_rect(size, a, b) matches Some((lt, rb)) ==> {
            let (left, top, right, bottom) = client_area(size);
            &&& left <= lt.x && top <= lt.y && rb.x <= right && rb.y <= bottom
            &&& min(a.x as int, b.x as int) <= lt.x && rb.x <= max(a.x as int, b.x as int)
            &&& min(a.y as int, b.y as int) <= lt.y && rb.y <= max(a.y as int, b.y as int)
        },
{
}

/// Whether offset `off` of a buffer with rows of `stride` pixels is a pixel
/// of the rectangle from `lt` to `rb` (both inclusive).
pub open spec fn in_rect(off: int, stride: int, lt: Point, rb: Point) -> bool {
    &&& off >= 0
    &&& lt.y <= off / stride <= rb.y
    &&& lt.x <= off % stride <= rb.x
}

/// `mem` with the pixels of the rectangle from `lt` to `rb` of the buffer at
/// `base` with rows of `stride` pixels set to `color`.
pub open spec fn filled(mem: Seq<u8>, base: int, stride: int, lt: Point, rb: Point, color: u8) -> Seq<u8> {
    Seq::new(mem.len(), |i: int| if in_rect(i - base, stride, lt, rb) { color } else { mem[i] })
}

/// `mem` with the rows of the rectangle above row `y` filled, and on row `y`
/// the pixels left of column `x`.
spec fn fill_progress(mem: Seq<u8>, base: int, stride: int, lt: Point, rb: Point, color: u8, y: int, x: int) -> Seq<u8> {
    Seq::new(
        mem.len(),
        |i: int| {
            let off = i - base;
            if off >= 0 && lt.x <= off % stride <= rb.x && (lt.y <= off / stride < y || (off / stride == y && off % stride < x)) {
                color
            } else {
                mem[i]
            }
        },
    )
}

/// Whether pixel `x` of row `y` of the 8x16 glyph `data` is set: bit `7 - x`
/// of byte `y`.
pub open spec fn glyph_bit(data: Seq<u8>, x: int, y: int) -> bool {
    (data[y] >> ((7 - x) as u8)) & 1u8 == 1u8
}

/// The bit that moves right from the top one across a glyph row tests the
/// glyph's pixel.
proof fn lemma_glyph_bit(pattern: u8, x: u8, bit: u8)
    requires
        x < 8,
        bit == 0x80u8 >> x,
    ensures
        (pattern & bit != 0) == ((pattern >> ((7 - x) as u8)) & 1u8 == 1u8),
        (bit >> 1u8) == 0x80u8 >> ((x + 1) as u8),
{
    assert((pattern & (0x80u8 >> x) != 0) == ((pattern >> ((7 - x) as u8)) & 1u8 == 1u8)) by (bit_vector)
        requires
            x < 8,
    ;
    assert(((0x80u8 >> x) >> 1u8) == 0x80u8 >> ((x + 1) as u8)) by (bit_vector)
        requires
            x < 8,
    ;
}

/// Byte `j` (from the least significant one) of `v`.
pub open spec fn byte_of(v: u32, j: int) -> u8 {
    if j == 0 {
        (v % 0x100) as u8
    } else if j == 1 {
        ((v / 0x100) % 0x100) as u8
    } else if j == 2 {
        ((v / 0x1_0000) % 0x100) as u8
    } else {
        (v / 0x100_0000) as u8
    }
}

/// Setting pixel `(x, y)` of a rectangle fill in progress moves it on by one pixel.
proof fn lemma_fill_step(mem0: Seq<u8>, mem: Seq<u8>, base: int, stride: int, lt: Point, rb: Point, color: u8, y: int, x: int)
    requires
        stride > 0,
        0 <= x < stride,
        0 <= y,
        0 <= base,
        base + y * stride + x < mem0.len(),
        mem == fill_progress(mem0, base, stride, lt, rb, color, y, x),
        lt.x <= x <= rb.x,
    ensures
        mem.update(base + y * stride + x, color) == fill_progress(mem0, base, stride, lt, rb, color, y, x + 1),
{
    let idx = base + y * stride + x;
    assert(stride * y == y * stride) by (nonlinear_arith);
    vstd::arithmetic::div_mod::lemma_fundamental_div_mod_converse(y * stride + x, stride, y, x);
    assert forall|i: int| 0 <= i < mem0.len() implies #[trigger] mem.update(idx, color)[i]
        == fill_progress(mem0, base, stride, lt, rb, color, y, x + 1)[i] by {
        if i - base >= 0 {
            vstd::arithmetic::div_mod::lemma_fundamental_div_mod(i - base, stride);
        }
    }
    assert(mem.update(idx, color) =~= fill_progress(mem0, base, stride, lt, rb, color, y, x + 1));
}

/// A pixel of a rectangle inside a buffer of `height` rows lies inside it.
proof fn lemma_rect_in_buffer(off: int, stride: int, height: int, lt: Point, rb: Point)
    requires
        stride > 0,
        in_rect(off, stride, lt, rb),
        rb.y < height,
        rb.x < stride,
    ensures
        off < stride * height,
{
    vstd::arithmetic::div_mod::lemma_fundamental_div_mod(off, stride);
    let q = off / stride;
    assert(stride * q + stride <= stride * height) by (nonlinear_arith)
        requires
            q + 1 <= height,
            stride > 0,
    ;
}

/// Whether `v` lies between `a` and `b`, both included.
pub open spec fn in_span(a: int, b: int, v: int) -> bool {
    (a <= v && v <= b) || (b <= v && v <= a)
}

/// How far `b` lies from `a`.
pub open spec fn dist(a: int, b: int) -> int {
    if b >= a { b - a } else { a - b }
}

/// The direction from `a` towards `b`: 1 or -1.
pub open spec fn dir(a: int, b: int) -> int {
    if a < b { 1 } else { -1 }
}

/// How many steps `v` lies from `a` in the direction of `b`.
pub open spec fn walked(a: int, b: int, v: int) -> int {
    if a < b { v - a } else { a - v }
}

/// Bresenham's walk over a `dx` by `dy` box, `xs` steps across and `ys`
/// steps down from its start: inside the box, with its error term.
pub open spec fn walk_state(dx: int, dy: int, xs: int, ys: int, err: int) -> bool {
    &&& 0 <= xs <= dx
    &&& 0 <= ys <= dy
    &&& err == dx - dy + ys * dx - xs * dy
    &&& -2 * dy <= err <= 2 * dx
}

/// A step of Bresenham's walk short of the far corner stays in the box and
/// moves on by at least one step.
proof fn lemma_walk_step(dx: int, dy: int, xs: int, ys: int, err: int)
    requires
        dx >= 0,
        dy >= 0,
        walk_state(dx, dy, xs, ys, err),
        !(xs == dx && ys == dy),
    ensures
        ({
            let across = 2 * err > -dy;
            let down = 2 * err < dx;
            let xs1 = if across { xs + 1 } else { xs };
            let ys1 = if down { ys + 1 } else { ys };
            let err1 = err - (if across { dy } else { 0 }) + (if down { dx } else { 0 });
            walk_state(dx, dy, xs1, ys1, err1) && xs1 + ys1 > xs + ys
        }),
{
    assert((xs + 1) * dy == xs * dy + dy) by (nonlinear_arith);
    assert((ys + 1) * dx == ys * dx + dx) by (nonlinear_arith);
    if xs == dx && ys < dy {
        assert(ys * dx - dx * dy + dx <= 0) by (nonlinear_arith)
            requires
                0 <= dx,
                ys + 1 <= dy,
        ;
    }
    if ys == dy && xs < dx {
        assert(dy * dx - xs * dy >= dy) by (nonlinear_arith)
            requires
                0 <= dy,
                xs + 1 <= dx,
        ;
    }
}

impl HariWindow {
    /// The window's buffer holds its pixels, row by row, and lies in a
    /// memory of `mem_len` bytes.
    pub open spec fn wf(&self, mem_len: nat) -> bool {
        &&& self.buffer_len == self.size.width * self.size.height
        &&& self.buffer_ptr + self.buffer_len <= mem_len
    }

    /// Where pixel `(x, y)` of the window lies in memory.
    pub open spec fn pixel_at(&self, x: int, y: int) -> int {
        self.buffer_ptr + y * self.size.width + x
    }

    /// Whether pixel `(x, y)` is a pixel of the window's buffer, which lies in
    /// a memory of `mem_len` bytes.
    pub open spec fn has_pixel(&self, mem_len: int, x: int, y: int) -> bool {
        &&& 0 <= x < self.size.width
        &&& 0 <= y
        &&& y * self.size.width + x < self.buffer_len
        &&& self.pixel_at(x, y) < mem_len
    }

    /// The colour of pixel `(x, y)` of the window in `mem`; 0 where there is
    /// no such pixel.
    pub open spec fn pixel(&self, mem: Seq<u8>, x: int, y: int) -> u8 {
        if self.has_pixel(mem.len() as int, x, y) {
            mem[self.pixel_at(x, y)]
        } else {
            0
        }
    }

    /// The RGBA bytes of the first `n` pixels of the rectangle of `width`
    /// pixels a row whose top-left pixel is `lt`, row by row.
    pub open spec fn rgba_of(&self, mem: Seq<u8>, lt: Point, width: int, n: int) -> Seq<u8> {
        Seq::new(
            (n * 4) as nat,
            |k: int| {
                let p = k / 4;
                byte_of(palette(self.pixel(mem, lt.x + p % width, lt.y + p / width)), k % 4)
            },
        )
    }

    /// `d` is what the host gets to redraw the rectangle with corners `a` and
    /// `b` of the window, whose pixels are in `mem`.
    pub open spec fn redraw_of(&self, mem: Seq<u8>, a: Point, b: Point, d: Redraw) -> bool {
        match spec_clip_rect(self.size, a, b) {
            Some((lt, rb)) => {
                let width = rb.x - lt.x + 1;
                let height = rb.y - lt.y + 1;
                &&& d.window_id == self.window_id
                &&& d.x == lt.x - 2
                &&& d.y == lt.y - 22
                &&& d.width == width
                &&& d.height == height
                &&& d.rgba@ == self.rgba_of(mem, lt, width, width * height)
            },
            None => false,
        }
    }

    /// Whether `redraw_rect` has something to send for the rectangle with
    /// corners `a` and `b`: it meets the drawable area, and the part there is
    /// no less than empty.
    pub open spec fn redraws(&self, a: Point, b: Point) -> bool {
        match spec_clip_rect(self.size, a, b) {
            Some((lt, rb)) => {
                &&& lt.x <= rb.x + 1
                &&& lt.y <= rb.y + 1
            },
            None => false,
        }
    }

    /// The size that the host window gets for a window of `size`: without its
    /// frame and title bar, with the host's title bar of `title_bar_height`.
    pub fn host_size(size: Size, title_bar_height: u32) -> (r: (u32, u32))
        ensures
            r.0 == size.width.wrapping_sub(4),
            r.1 == size.height.wrapping_sub(24).wrapping_add(title_bar_height),
    {
        (size.width.wrapping_sub(4), size.height.wrapping_sub(24).wrapping_add(title_bar_height))
    }

    /// A window of `size` that the host knows as `window_id`, with its pixels
    /// at `buffer_ptr`, filled with the background colour.
    pub fn new(window_id: WindowId, size: Size, buffer_ptr: u32, mem: &mut Vec<u8>) -> (r: Self)
        requires
            buffer_ptr + size.width * size.height <= old(mem).len(),
        ensures
            r.window_id == window_id,
            r.size == size,
            r.buffer_ptr == buffer_ptr,
            r.buffer_len == size.width * size.height,
            r.wf(final(mem).len() as nat),
            final(mem).len() == old(mem).len(),
            forall|i: int| 0 <= i < old(mem).len() ==> #[trigger] final(mem)@[i]
                == if buffer_ptr <= i < buffer_ptr + size.width * size.height { WINDOW_BGCOLOR } else { old(mem)@[i] },
    {
        let w = size.width as u64;
        let h = size.height as u64;
        assert(w * h <= 0xffff_ffff * 0xffff_ffff) by (nonlinear_arith)
            requires
                w <= 0xffff_ffff,
                h <= 0xffff_ffff,
        ;
        let buffer_len = (w * h) as usize;
        let window = Self { window_id, size, buffer_ptr, buffer_len };
        let start = buffer_ptr as usize;
        let mut i: usize = 0;
        while i < buffer_len
            invariant
                start == buffer_ptr,
                buffer_len == size.width * size.height,
                start + buffer_len <= mem.len(),
                mem.len() == old(mem).len(),
                i <= buffer_len,
                forall|j: int| 0 <= j < old(mem).len() ==> #[trigger] mem@[j]
                    == if start <= j < start + i { WINDOW_BGCOLOR } else { old(mem)@[j] },
            decreases buffer_len - i,
        {
            mem.set(start + i, WINDOW_BGCOLOR);
            i += 1;
        }
        window
    }

    /// Returns window size
    pub fn size(&self) -> (r: Size)
        ensures
            r == self.size,
    {
        self.size
    }

    /// Returns the window ID
    pub fn window_id(&self) -> (r: WindowId)
        ensures
            r == self.window_id,
    {
        self.window_id
    }

    /// Where the host is to move the window: the window and its new top-left
    /// point on the screen.
    pub fn move_to(&self, origin: Point) -> (r: (WindowId, Point))
        ensures
            r == (self.window_id, origin),
    {
        (self.window_id, origin)
    }

    /// The point, where it lies in the drawable area.
    pub fn try_clip_point(&self, point: Point) -> (r: Option<Point>)
        ensures
            r == self.try_clip_point_spec(point),
    {
        let left: i64 = 2;
        let top: i64 = 22;
        let right: i64 = self.size.width as i32 as i64 - 2 - 1;
        let bottom: i64 = self.size.height as i32 as i64 - 2 - 1;
        let x = point.x as i64;
        let y = point.y as i64;
        if x < left || x > right || y < top || y > bottom {
            None
        } else {
            Some(point)
        }
    }

    /// What `try_clip_point` returns.
    pub open spec fn try_clip_point_spec(&self, point: Point) -> Option<Point> {
        let (left, top, right, bottom) = client_area(self.size);
        if point.x < left || point.x > right || point.y < top || point.y > bottom {
            None
        } else {
            Some(point)
        }
    }

    /// The part of the rectangle with corners `left_top` and `right_bottom` in
    /// the drawable area; `None` when they do not meet.
    pub fn try_clip_rect(&self, left_top: Point, right_bottom: Point) -> (r: Option<(Point, Point)>)
        ensures
            r == spec_clip_rect(self.size, left_top, right_bottom),
    {
        let min_x: i64 = if left_top.x <= right_bottom.x { left_top.x as i64 } else { right_bottom.x as i64 };
        let max_x: i64 = if left_top.x >= right_bottom.x { left_top.x as i64 } else { right_bottom.x as i64 };
        let min_y: i64 = if left_top.y <= right_bottom.y { left_top.y as i64 } else { right_bottom.y as i64 };
        let max_y: i64 = if left_top.y >= right_bottom.y { left_top.y as i64 } else { right_bottom.y as i64 };
        let left: i64 = 2;
        let top: i64 = 22;
        let right: i64 = self.size.width as i32 as i64 - 2 - 1;
        let bottom: i64 = self.size.height as i32 as i64 - 2 - 1;
        if min_x > right || max_x < left || min_y > bottom || max_y < top {
            None
        } else {
            let clipped_left = if min_x >= left { min_x } else { left };
            let clipped_right = if max_x <= right { max_x } else { right };
            let clipped_top = if min_y >= top { min_y } else { top };
            let clipped_bottom = if max_y <= bottom { max_y } else { bottom };
            Some((
                Point { x: clipped_left as i32, y: clipped_top as i32 },
                Point { x: clipped_right as i32, y: clipped_bottom as i32 },
            ))
        }
    }

    /// Where pixel `(x, y)` of the window lies in a memory of `mem_len`
    /// bytes; `None` where it is no pixel of the window's buffer there.
    pub fn pixel_index(&self, mem_len: usize, x: i32, y: i32) -> (r: Option<usize>)
        ensures
            r == (if self.has_pixel(mem_len as int, x as int, y as int) {
                Some(self.pixel_at(x as int, y as int) as usize)
            } else {
                None
            }),
    {
        if x < 0 || y < 0 || x as u64 >= self.size.width as u64 {
            return None;
        }
        let w = self.size.width as u64;
        let yy = y as u64;
        assert(yy * w <= 0x8000_0000 * 0xffff_ffff) by (nonlinear_arith)
            requires
                yy <= 0x8000_0000,
                w <= 0xffff_ffff,
        ;
        let offset = yy * w + x as u64;
        if offset >= self.buffer_len as u64 {
            return None;
        }
        let index = self.buffer_ptr as u64 + offset;
        if index >= mem_len as u64 {
            return None;
        }
        Some(index as usize)
    }

    /// Sets the pixel at `point`, where it lies in the drawable area, to
    /// `color`; returns what to redraw where `redraw` asks for it.
    pub fn set_pixel(&self, mem: &mut Vec<u8>, point: Point, color: u8, redraw: bool) -> (r: Option<Redraw>)
        requires
            self.wf(old(mem).len() as nat),
        ensures
            final(mem).len() == old(mem).len(),
            final(mem)@ == (if self.try_clip_point_spec(point) is Some {
                old(mem)@.update(self.pixel_at(point.x as int, point.y as int), color)
            } else {
                old(mem)@
            }),
            forall|i: int| 0 <= i < old(mem).len() && !(self.buffer_ptr <= i < self.buffer_ptr + self.buffer_len)
                ==> #[trigger] final(mem)@[i] == old(mem)@[i],
            r is Some <==> redraw && self.try_clip_point_spec(point) is Some && self.redraws(point, point),
            r matches Some(d) ==> self.redraw_of(final(mem)@, point, point, d),
    {
        if self.try_clip_point(point).is_none() {
            return None;
        }
        let ghost w = self.size.width as int;
        let ghost h = self.size.height as int;
        assert(point.y * w + point.x < w * h) by (nonlinear_arith)
            requires
                0 <= point.x < w,
                0 <= point.y < h,
        ;
        let index = self.pixel_index(mem.len(), point.x, point.y);
        if let Some(index) = index {
            mem.set(index, color);
        }
        if redraw {
            self.redraw_rect(mem, point, point)
        } else {
            None
        }
    }

    /// Fills the part in the drawable area of the rectangle with corners
    /// `left_top` and `right_bottom` with `color`; returns what to redraw
    /// where `redraw` asks for it.
    pub fn fill_rect(&self, mem: &mut Vec<u8>, left_top: Point, right_bottom: Point, color: u8, redraw: bool) -> (r: Option<Redraw>)
        requires
            self.wf(old(mem).len() as nat),
        ensures
            match spec_clip_rect(self.size, left_top, right_bottom) {
                Some((lt, rb)) => {
                    &&& final(mem)@ == filled(old(mem)@, self.buffer_ptr as int, self.size.width as int, lt, rb, color)
                    &&& (r is Some <==> redraw && self.redraws(lt, rb))
                    &&& r matches Some(d) ==> self.redraw_of(final(mem)@, lt, rb, d)
                },
                None => final(mem)@ == old(mem)@ && r is None,
            },
            forall|i: int| 0 <= i < old(mem).len() && !(self.buffer_ptr <= i < self.buffer_ptr + self.buffer_len)
                ==> #[trigger] final(mem)@[i] == old(mem)@[i],
    {
        let clip = self.try_clip_rect(left_top, right_bottom);
        match clip {
            None => None,
            Some((lt, rb)) => {
                let ghost mem0 = mem@;
                let ghost base = self.buffer_ptr as int;
                let ghost stride = self.size.width as int;
                if lt.x <= rb.x && lt.y <= rb.y {
                    let mut y: i64 = lt.y as i64;
                    while y <= rb.y as i64
                        invariant
                            self.wf(mem.len() as nat),
                            mem.len() == mem0.len(),
                            mem0 == old(mem)@,
                            base == self.buffer_ptr,
                            stride == self.size.width,
                            2 <= lt.x <= rb.x < stride,
                            22 <= lt.y <= rb.y < self.size.height,
                            lt.y <= y <= rb.y + 1,
                            mem@ == fill_progress(mem0, base, stride, lt, rb, color, y as int, lt.x as int),
                        decreases rb.y + 1 - y,
                    {
                        let mut x: i64 = lt.x as i64;
                        while x <= rb.x as i64
                            invariant
                                self.wf(mem.len() as nat),
                                mem.len() == mem0.len(),
                                base == self.buffer_ptr,
                                stride == self.size.width,
                                2 <= lt.x <= rb.x < stride,
                                22 <= lt.y <= rb.y < self.size.height,
                                lt.y <= y <= rb.y,
                                lt.x <= x <= rb.x + 1,
                                mem@ == fill_progress(mem0, base, stride, lt, rb, color, y as int, x as int),
                            decreases rb.x + 1 - x,
                        {
                            assert(y * stride + x < stride * self.size.height) by (nonlinear_arith)
                                requires
                                    0 <= x < stride,
                                    0 <= y < self.size.height,
                            ;
                            let index = self.pixel_index(mem.len(), x as i32, y as i32);
                            proof {
                                lemma_fill_step(mem0, mem@, base, stride, lt, rb, color, y as int, x as int);
                            }
                            if let Some(index) = index {
                                mem.set(index, color);
                            }
                            x += 1;
                        }
                        assert(fill_progress(mem0, base, stride, lt, rb, color, y as int, rb.x + 1)
                            =~= fill_progress(mem0, base, stride, lt, rb, color, y + 1, lt.x as int));
                        y += 1;
                    }
                    assert(fill_progress(mem0, base, stride, lt, rb, color, rb.y + 1, lt.x as int)
                        =~= filled(mem0, base, stride, lt, rb, color));
                } else {
                    assert(mem0 =~= filled(mem0, base, stride, lt, rb, color));
                }
                assert forall|i: int| 0 <= i < mem0.len() && !(base <= i < base + self.buffer_len)
                    implies #[trigger] mem@[i] == mem0[i] by {
                    if in_rect(i - base, stride, lt, rb) {
                        lemma_rect_in_buffer(i - base, stride, self.size.height as int, lt, rb);
                    }
                }
                if redraw {
                    self.redraw_rect(mem, lt, rb)
                } else {
                    None
                }
            },
        }
    }

    /// `mem` with the pixel at (`x`, `y`) set to `color`, where that point
    /// is a point of the drawable area.
    pub open spec fn dot_put(&self, mem: Seq<u8>, x: int, y: int, color: u8) -> Seq<u8> {
        if i32::MIN <= x <= i32::MAX && i32::MIN <= y <= i32::MAX
            && self.try_clip_point_spec(Point { x: x as i32, y: y as i32 }) is Some {
            mem.update(self.pixel_at(x, y), color)
        } else {
            mem
        }
    }

    /// `mem` after Bresenham's walk from (`x`, `y`) with error term `err`
    /// towards `end`, for at most `steps` points: each point is drawn, the
    /// walk stops at `end` or where the error term leaves its bounds.
    pub open spec fn line_drawn(
        &self,
        mem: Seq<u8>,
        x: int,
        y: int,
        err: int,
        steps: nat,
        end: Point,
        dx: int,
        dy: int,
        sx: int,
        sy: int,
        color: u8,
    ) -> Seq<u8>
        decreases steps,
    {
        if steps == 0 {
            mem
        } else {
            let m = self.dot_put(mem, x, y, color);
            if x == end.x && y == end.y {
                m
            } else {
                let e2 = 2 * err;
                let err1 = if e2 > -dy { err - dy } else { err };
                let nx = if e2 > -dy { x + sx } else { x };
                let err2 = if e2 < dx { err1 + dx } else { err1 };
                let ny = if e2 < dx { y + sy } else { y };
                if err2 < -0x2_0000_0000 || err2 > 0x2_0000_0000 {
                    m
                } else {
                    self.line_drawn(m, nx, ny, err2, (steps - 1) as nat, end, dx, dy, sx, sy, color)
                }
            }
        }
    }

    /// The pixels that `draw_line` sets: Bresenham's walk from `start` to
    /// `end`, of at most `|dx| + |dy| + 1` points.
    pub open spec fn line_put(&self, mem: Seq<u8>, start: Point, end: Point, color: u8) -> Seq<u8> {
        let dx: int = if end.x >= start.x { end.x - start.x } else { start.x - end.x };
        let dy: int = if end.y >= start.y { end.y - start.y } else { start.y - end.y };
        let sx: int = if start.x < end.x { 1 } else { -1 };
        let sy: int = if start.y < end.y { 1 } else { -1 };
        self.line_drawn(mem, start.x as int, start.y as int, dx - dy, (dx + dy + 1) as nat, end, dx, dy, sx, sy, color)
    }

    /// Whether byte `i` is the pixel of a point of the drawable area in the
    /// rectangle spanned by `start` and `end`.
    pub open spec fn line_pixel(&self, start: Point, end: Point, i: int) -> bool {
        exists|px: int, py: int|
            #![trigger self.pixel_at(px, py)]
            in_span(start.x as int, end.x as int, px) && in_span(start.y as int, end.y as int, py)
                && self.try_clip_point_spec(Point { x: px as i32, y: py as i32 }) is Some
                && self.pixel_at(px, py) == i
    }

    /// A point of the drawable area is a pixel of the window's buffer.
    proof fn lemma_clip_pixel(&self, mem_len: nat, p: Point)
        requires
            self.wf(mem_len),
            self.try_clip_point_spec(p) is Some,
        ensures
            self.buffer_ptr <= self.pixel_at(p.x as int, p.y as int) < self.buffer_ptr + self.buffer_len,
    {
        let w = self.size.width as int;
        let h = self.size.height as int;
        assert(p.y * w + p.x < w * h) by (nonlinear_arith)
            requires
                0 <= p.x < w,
                0 <= p.y < h,
        ;
    }

    /// Bresenham's walk from (`x`, `y`) with error term `err`, on its way
    /// from `start` to `end` with enough steps left: every byte it changes is
    /// set to `color` and is a pixel of the line's rectangle, and it sets the
    /// pixels of (`x`, `y`) and of `end` where they lie in the drawable area.
    proof fn lemma_line_walk(&self, mem: Seq<u8>, start: Point, end: Point, x: int, y: int, err: int, steps: nat, color: u8)
        requires
            self.wf(mem.len() as nat),
            walk_state(
                dist(start.x as int, end.x as int),
                dist(start.y as int, end.y as int),
                walked(start.x as int, end.x as int, x),
                walked(start.y as int, end.y as int, y),
                err,
            ),
            steps >= dist(start.x as int, end.x as int) + dist(start.y as int, end.y as int)
                - walked(start.x as int, end.x as int, x) - walked(start.y as int, end.y as int, y) + 1,
        ensures
            ({
                let out = self.line_drawn(
                    mem, x, y, err, steps, end,
                    dist(start.x as int, end.x as int), dist(start.y as int, end.y as int),
                    dir(start.x as int, end.x as int), dir(start.y as int, end.y as int), color,
                );
                &&& out.len() == mem.len()
                &&& forall|i: int| 0 <= i < mem.len() ==> #[trigger] out[i] == mem[i]
                    || (out[i] == color && self.line_pixel(start, end, i))
                &&& self.try_clip_point_spec(end) is Some ==> out[self.pixel_at(end.x as int, end.y as int)] == color
                &&& self.try_clip_point_spec(Point { x: x as i32, y: y as i32 }) is Some
                    ==> out[self.pixel_at(x, y)] == color
            }),
        decreases steps,
    {
        let dx = dist(start.x as int, end.x as int);
        let dy = dist(start.y as int, end.y as int);
        let sx = dir(start.x as int, end.x as int);
        let sy = dir(start.y as int, end.y as int);
        let xs = walked(start.x as int, end.x as int, x);
        let ys = walked(start.y as int, end.y as int, y);
        let m = self.dot_put(mem, x, y, color);
        let here = Point { x: x as i32, y: y as i32 };
        assert(in_span(start.x as int, end.x as int, x) && in_span(start.y as int, end.y as int, y));
        assert(here.x == x && here.y == y);
        if self.try_clip_point_spec(here) is Some {
            self.lemma_clip_pixel(mem.len() as nat, here);
            assert(self.line_pixel(start, end, self.pixel_at(x, y)));
        }
        assert(m.len() == mem.len());
        assert forall|i: int| 0 <= i < mem.len() implies #[trigger] m[i] == mem[i]
            || (m[i] == color && self.line_pixel(start, end, i)) by {
            if self.try_clip_point_spec(here) is Some && i == self.pixel_at(x, y) {
                assert(self.line_pixel(start, end, i));
            }
        }
        let out = self.line_drawn(mem, x, y, err, steps, end, dx, dy, sx, sy, color);
        if x == end.x && y == end.y {
            assert(out == m);
        } else {
            lemma_walk_step(dx, dy, xs, ys, err);
            let e2 = 2 * err;
            let err1 = if e2 > -dy { err - dy } else { err };
            let nx = if e2 > -dy { x + sx } else { x };
            let err2 = if e2 < dx { err1 + dx } else { err1 };
            let ny = if e2 < dx { y + sy } else { y };
            assert(out == self.line_drawn(m, nx, ny, err2, (steps - 1) as nat, end, dx, dy, sx, sy, color));
            self.lemma_line_walk(m, start, end, nx, ny, err2, (steps - 1) as nat, color);
            if self.try_clip_point_spec(here) is Some {
                let idx = self.pixel_at(x, y);
                assert(out[idx] == m[idx] || out[idx] == color);
            }
        }
    }

    /// Every byte that `draw_line` changes is set to the colour and is the
    /// pixel of a point of the drawable area in the rectangle spanned by
    /// `start` and `end`; the pixels of both ends are set where they lie in
    /// the drawable area.
    pub proof fn lemma_line_in_span(&self, mem: Seq<u8>, start: Point, end: Point, color: u8)
        requires
            self.wf(mem.len() as nat),
        ensures
            self.line_put(mem, start, end, color).len() == mem.len(),
            forall|i: int| 0 <= i < mem.len() && #[trigger] self.line_put(mem, start, end, color)[i] != mem[i]
                ==> self.line_put(mem, start, end, color)[i] == color && self.line_pixel(start, end, i),
            self.try_clip_point_spec(start) is Some
                ==> self.line_put(mem, start, end, color)[self.pixel_at(start.x as int, start.y as int)] == color,
            self.try_clip_point_spec(end) is Some
                ==> self.line_put(mem, start, end, color)[self.pixel_at(end.x as int, end.y as int)] == color,
    {
        let dx = dist(start.x as int, end.x as int);
        let dy = dist(start.y as int, end.y as int);
        assert(walk_state(dx, dy, 0, 0, dx - dy));
        self.lemma_line_walk(mem, start, end, start.x as int, start.y as int, dx - dy, (dx + dy + 1) as nat, color);
        assert(Point { x: start.x as int as i32, y: start.y as int as i32 } == start);
    }

    /// Draws a line from `start` to `end` with Bresenham's algorithm; returns
    /// what to redraw where `redraw` asks for it.
    pub fn draw_line(&self, mem: &mut Vec<u8>, start: Point, end: Point, color: u8, redraw: bool) -> (r: Option<Redraw>)
        requires
            self.wf(old(mem).len() as nat),
        ensures
            final(mem).len() == old(mem).len(),
            forall|i: int| 0 <= i < old(mem).len() && !(self.buffer_ptr <= i < self.buffer_ptr + self.buffer_len)
                ==> #[trigger] final(mem)@[i] == old(mem)@[i],
            final(mem)@ == self.line_put(old(mem)@, start, end, color),
            forall|i: int| 0 <= i < old(mem).len() && #[trigger] final(mem)@[i] != old(mem)@[i]
                ==> final(mem)@[i] == color && self.line_pixel(start, end, i),
            self.try_clip_point_spec(start) is Some ==> final(mem)@[self.pixel_at(start.x as int, start.y as int)] == color,
            self.try_clip_point_spec(end) is Some ==> final(mem)@[self.pixel_at(end.x as int, end.y as int)] == color,
            r is Some <==> redraw && self.redraws(start, end),
            r matches Some(d) ==> self.redraw_of(final(mem)@, start, end, d),
    {
        let mut x0 = start.x as i64;
        let mut y0 = start.y as i64;
        let x1 = end.x as i64;
        let y1 = end.y as i64;
        let dx = if x1 >= x0 { x1 - x0 } else { x0 - x1 };
        let dy = if y1 >= y0 { y1 - y0 } else { y0 - y1 };
        let sx: i64 = if x0 < x1 { 1 } else { -1 };
        let sy: i64 = if y0 < y1 { 1 } else { -1 };
        let mut err = dx - dy;
        // Bresenham's walk reaches `end` within `dx + dy + 1` steps.
        let mut steps: u64 = (dx + dy + 1) as u64;
        while steps > 0
            invariant_except_break
                self.line_drawn(mem@, x0 as int, y0 as int, err as int, steps as nat, end, dx as int, dy as int, sx as int, sy as int, color)
                    == self.line_put(old(mem)@, start, end, color),
            invariant
                self.wf(mem.len() as nat),
                mem.len() == old(mem).len(),
                forall|i: int| 0 <= i < old(mem).len() && !(self.buffer_ptr <= i < self.buffer_ptr + self.buffer_len)
                    ==> #[trigger] mem@[i] == old(mem)@[i],
                0 <= dx <= 0xffff_ffff,
                0 <= dy <= 0xffff_ffff,
                -0x2_0000_0000 <= err <= 0x2_0000_0000,
                steps <= dx + dy + 1,
                x0 - start.x <= dx + dy + 1 - steps,
                start.x - x0 <= dx + dy + 1 - steps,
                y0 - start.y <= dx + dy + 1 - steps,
                start.y - y0 <= dx + dy + 1 - steps,
                sx == 1 || sx == -1,
                sy == 1 || sy == -1,
                dx == (if end.x >= start.x { end.x - start.x } else { start.x - end.x }),
                dy == (if end.y >= start.y { end.y - start.y } else { start.y - end.y }),
                sx == (if start.x < end.x { 1int } else { -1int }),
                sy == (if start.y < end.y { 1int } else { -1int }),
                x1 == end.x,
                y1 == end.y,
            ensures
                mem@ == self.line_put(old(mem)@, start, end, color),
            decreases steps,
        {
            let ghost mem0 = mem@;
            let ghost steps0 = steps;
            let ghost (gx, gy, gerr) = (x0 as int, y0 as int, err as int);
            steps -= 1;
            if x0 >= i32::MIN as i64 && x0 <= i32::MAX as i64 && y0 >= i32::MIN as i64 && y0 <= i32::MAX as i64 {
                self.set_pixel(mem, Point { x: x0 as i32, y: y0 as i32 }, color, false);
            }
            assert(mem@ == self.dot_put(mem0, gx, gy, color));
            assert(self.line_drawn(mem0, gx, gy, gerr, steps0 as nat, end, dx as int, dy as int, sx as int, sy as int, color)
                == if gx == end.x && gy == end.y {
                    mem@
                } else {
                    let e2 = 2 * gerr;
                    let err1 = if e2 > -dy { gerr - dy } else { gerr };
                    let nx = if e2 > -dy { gx + sx } else { gx };
                    let err2 = if e2 < dx { err1 + dx } else { err1 };
                    let ny = if e2 < dx { gy + sy } else { gy };
                    if err2 < -0x2_0000_0000 || err2 > 0x2_0000_0000 {
                        mem@
                    } else {
                        self.line_drawn(mem@, nx, ny, err2, steps as nat, end, dx as int, dy as int, sx as int, sy as int, color)
                    }
                });
            if x0 == x1 && y0 == y1 {
                break;
            }
            let e2 = 2 * err;
            if e2 > -dy {
                err = err - dy;
                x0 = x0 + sx;
            }
            if e2 < dx {
                err = err + dx;
                y0 = y0 + sy;
            }
            if err < -0x2_0000_0000 || err > 0x2_0000_0000 {
                break;
            }
        }
        proof {
            self.lemma_line_in_span(old(mem)@, start, end, color);
        }
        if redraw {
            self.redraw_rect(mem, start, end)
        } else {
            None
        }
    }

    /// Whether the 8x16 glyph `data` fits at `origin`, as `put_font_data`
    /// checks it: left of the last 8 columns, above the last 16 rows, with
    /// its 16 rows.
    pub open spec fn glyph_fits(&self, origin: Point, data: Seq<u8>) -> bool {
        &&& origin.x < (self.size.width as i32) - 8
        &&& origin.y < (self.size.height as i32) - 16
        &&& data.len() >= 16
    }

    /// `mem` with the pixels of the window that the 8x16 glyph `data` at
    /// `origin` sets, up to its `x`-th column of row `y` (all of it for `y`
    /// 16), in `color`.
    pub open spec fn glyph_drawn(&self, mem: Seq<u8>, origin: Point, data: Seq<u8>, color: u8, y: int, x: int) -> Seq<u8> {
        let w = self.size.width as int;
        Seq::new(
            mem.len(),
            |i: int| {
                let off = i - self.buffer_ptr;
                let gx = off % w - origin.x;
                let gy = off / w - origin.y;
                if 0 <= off < self.buffer_len && 0 <= gx < 8 && 0 <= gy < 16 && glyph_bit(data, gx, gy)
                    && (gy < y || (gy == y && gx < x)) {
                    color
                } else {
                    mem[i]
                }
            },
        )
    }

    /// Puts the 8x16 glyph `data` (a byte per row, high bit left) at `origin`
    /// in `color`, where the glyph fits in the window.
    fn put_font_data(&self, mem: &mut Vec<u8>, origin: Point, data: &[u8], color: u8)
        requires
            self.wf(old(mem).len() as nat),
        ensures
            final(mem).len() == old(mem).len(),
            forall|i: int| 0 <= i < old(mem).len() && !(self.buffer_ptr <= i < self.buffer_ptr + self.buffer_len)
                ==> #[trigger] final(mem)@[i] == old(mem)@[i],
            final(mem)@ == if self.glyph_fits(origin, data@) {
                self.glyph_drawn(old(mem)@, origin, data@, color, 16, 0)
            } else {
                old(mem)@
            },
    {
        if (origin.x as i64) < self.size.width as i32 as i64 - 8 && (origin.y as i64) < self.size.height as i32 as i64 - 16
            && data.len() >= 16 {
            let ghost mem0 = mem@;
            let ghost w = self.size.width as int;
            let mut y: usize = 0;
            while y < 16
                invariant
                    y <= 16,
                    self.wf(mem.len() as nat),
                    mem.len() == mem0.len(),
                    mem0 == old(mem)@,
                    w == self.size.width,
                    data.len() >= 16,
                    self.glyph_fits(origin, data@),
                    mem@ == self.glyph_drawn(mem0, origin, data@, color, y as int, 0),
                decreases 16 - y,
            {
                let pattern = data[y];
                let mut bit: u8 = 0x80;
                let mut x: i32 = 0;
                assert(0x80u8 >> 0u8 == 0x80u8) by (bit_vector);
                while x < 8
                    invariant
                        0 <= x <= 8,
                        y < 16,
                        self.wf(mem.len() as nat),
                        mem.len() == mem0.len(),
                        w == self.size.width,
                        data.len() >= 16,
                        pattern == data@[y as int],
                        bit == 0x80u8 >> (x as u8),
                        self.glyph_fits(origin, data@),
                        mem@ == self.glyph_drawn(mem0, origin, data@, color, y as int, x as int),
                    decreases 8 - x,
                {
                    let ghost before = mem@;
                    let set = pattern & bit != 0;
                    proof {
                        lemma_glyph_bit(pattern, x as u8, bit);
                    }
                    let px = origin.x as i64 + x as i64;
                    let py = origin.y as i64 + y as i64;
                    if set && px <= i32::MAX as i64 && py <= i32::MAX as i64 {
                        if let Some(index) = self.pixel_index(mem.len(), px as i32, py as i32) {
                            mem.set(index, color);
                        }
                    }
                    proof {
                        self.lemma_glyph_step(mem0, before, mem@, origin, data@, color, y as int, x as int, set, px as int, py as int);
                    }
                    bit = bit >> 1;
                    x += 1;
                }
                assert(self.glyph_drawn(mem0, origin, data@, color, y as int, 8) =~= self.glyph_drawn(mem0, origin, data@, color, y + 1, 0));
                y += 1;
            }
        } else {
            assert(!self.glyph_fits(origin, data@));
        }
        proof {
            if self.glyph_fits(origin, data@) {
                self.lemma_glyph_in_buffer(old(mem)@, origin, data@, color);
            }
        }
    }

    /// Drawing one more pixel of a glyph moves `glyph_drawn` on by one column.
    proof fn lemma_glyph_step(
        &self,
        mem0: Seq<u8>,
        before: Seq<u8>,
        after: Seq<u8>,
        origin: Point,
        data: Seq<u8>,
        color: u8,
        y: int,
        x: int,
        set: bool,
        px: int,
        py: int,
    )
        requires
            self.wf(mem0.len() as nat),
            self.glyph_fits(origin, data),
            0 <= x < 8,
            0 <= y < 16,
            set == glyph_bit(data, x, y),
            px == origin.x + x,
            py == origin.y + y,
            before == self.glyph_drawn(mem0, origin, data, color, y, x),
            after == (if set && px <= i32::MAX && py <= i32::MAX && self.has_pixel(mem0.len() as int, px, py) {
                before.update(self.pixel_at(px, py), color)
            } else {
                before
            }),
        ensures
            after == self.glyph_drawn(mem0, origin, data, color, y, x + 1),
    {
        let w = self.size.width as int;
        let target = self.glyph_drawn(mem0, origin, data, color, y, x + 1);
        assert forall|i: int| 0 <= i < mem0.len() implies #[trigger] after[i] == target[i] by {
            let off = i - self.buffer_ptr;
            if 0 <= off < self.buffer_len {
                vstd::arithmetic::div_mod::lemma_fundamental_div_mod(off, w);
                if off % w - origin.x == x && off / w - origin.y == y {
                    assert(off == w * py + px);
                    assert(py * w == w * py) by (nonlinear_arith);
                    assert(py * w + px < self.buffer_len);
                    assert(self.pixel_at(px, py) == i);
                }
                if set && px <= i32::MAX && py <= i32::MAX && self.has_pixel(mem0.len() as int, px, py)
                    && i == self.pixel_at(px, py) {
                    assert(w * py == py * w) by (nonlinear_arith);
                    vstd::arithmetic::div_mod::lemma_fundamental_div_mod_converse(off, w, py, px);
                }
            } else if set && px <= i32::MAX && py <= i32::MAX && self.has_pixel(mem0.len() as int, px, py) {
                assert(i != self.pixel_at(px, py));
            }
        }
        assert(after =~= target);
    }

    /// The pixels that a glyph sets lie in the window's buffer.
    proof fn lemma_glyph_in_buffer(&self, mem: Seq<u8>, origin: Point, data: Seq<u8>, color: u8)
        requires
            self.wf(mem.len() as nat),
        ensures
            forall|i: int| 0 <= i < mem.len() && !(self.buffer_ptr <= i < self.buffer_ptr + self.buffer_len)
                ==> #[trigger] self.glyph_drawn(mem, origin, data, color, 16, 0)[i] == mem[i],
    {
    }

    /// `mem` after `fill_rect` fills the rectangle with corners `a` and `b`
    /// with `color`.
    pub open spec fn rect_filled(&self, mem: Seq<u8>, a: Point, b: Point, color: u8) -> Seq<u8> {
        match spec_clip_rect(self.size, a, b) {
            Some((lt, rb)) => filled(mem, self.buffer_ptr as int, self.size.width as int, lt, rb, color),
            None => mem,
        }
    }

    /// `mem` after `put_font_data` puts the glyph `data` at `origin`.
    pub open spec fn glyph_put(&self, mem: Seq<u8>, origin: Point, data: Seq<u8>, color: u8) -> Seq<u8> {
        if self.glyph_fits(origin, data) {
            self.glyph_drawn(mem, origin, data, color, 16, 0)
        } else {
            mem
        }
    }

    /// `origin` moved by `(dx, dy)`, wrapping around at 32 bits.
    pub open spec fn moved(origin: Point, dx: int, dy: int) -> Point {
        Point { x: (origin.x + dx) as i32, y: (origin.y + dy) as i32 }
    }

    /// `mem` after `put_font` puts the character `jc` at `origin`.
    pub open spec fn font_put(&self, mem: Seq<u8>, origin: Point, jc: JisChar, color: u8, hankaku: Seq<u8>, kanji_font: Seq<u8>) -> Seq<u8> {
        match jc {
            JisChar::ANK(ch) => if 0x21 <= ch <= 0x7f {
                let off = (ch - 0x20) * 16;
                if off + 16 <= hankaku.len() {
                    self.glyph_put(mem, origin, hankaku.subrange(off, off + 16), color)
                } else {
                    mem
                }
            } else if ch >= 0x80 {
                self.rect_filled(mem, Self::moved(origin, 1, 1), Self::moved(origin, 7, 14), color)
            } else {
                mem
            },
            JisChar::Kanji(k) => if origin.x < (self.size.width as i32) - 16 && origin.y < (self.size.height as i32) - 16 {
                let base = 0x1000 + k * 32;
                if base + 32 <= kanji_font.len() {
                    self.glyph_put(
                        self.glyph_put(mem, origin, kanji_font.subrange(base, base + 16), color),
                        Self::moved(origin, 8, 0),
                        kanji_font.subrange(base + 16, base + 32),
                        color,
                    )
                } else {
                    self.rect_filled(mem, Self::moved(origin, 1, 1), Self::moved(origin, 14, 14), color)
                }
            } else {
                mem
            },
        }
    }

    /// A kanji glyph of `kanji_font` (32 bytes for code `k` at `0x1000 + 32 * k`)
    /// put at `origin` sets, within its 16x16 box, pixel `(x, y)` of the box
    /// in `color` where bit `7 - x % 8` of the glyph's byte `y` is set: of the
    /// first 16 bytes for the left columns `x < 8`, of the last 16 for the
    /// right ones; every other byte keeps its value.
    pub proof fn lemma_kanji_glyph(&self, mem: Seq<u8>, origin: Point, k: u16, color: u8, hankaku: Seq<u8>, kanji_font: Seq<u8>, i: int)
        requires
            self.size.width > 0,
            origin.x < (self.size.width as i32) - 16,
            origin.y < (self.size.height as i32) - 16,
            0x1000 + k * 32 + 32 <= kanji_font.len(),
            0 <= i < mem.len(),
        ensures
            ({
                let base = 0x1000 + k * 32;
                let w = self.size.width as int;
                let off = i - self.buffer_ptr;
                let x = off % w - origin.x;
                let y = off / w - origin.y;
                let row = kanji_font[base + (if x < 8 { 0int } else { 16int }) + y];
                self.font_put(mem, origin, JisChar::Kanji(k), color, hankaku, kanji_font)[i] == if 0 <= off < self.buffer_len
                    && 0 <= x < 16 && 0 <= y < 16 && (row >> ((7 - x % 8) as u8)) & 1u8 == 1u8 {
                    color
                } else {
                    mem[i]
                }
            }),
    {
        let base = 0x1000 + k * 32;
        let left = kanji_font.subrange(base, base + 16);
        let right = kanji_font.subrange(base + 16, base + 32);
        let o2 = Self::moved(origin, 8, 0);
        assert(o2.x == origin.x + 8 && o2.y == origin.y);
        assert(self.glyph_fits(origin, left));
        assert(self.glyph_fits(o2, right));
        let m1 = self.glyph_drawn(mem, origin, left, color, 16, 0);
        let m2 = self.glyph_drawn(m1, o2, right, color, 16, 0);
        assert(self.font_put(mem, origin, JisChar::Kanji(k), color, hankaku, kanji_font) == m2);
        let w = self.size.width as int;
        let off = i - self.buffer_ptr;
        let x = off % w - origin.x;
        let y = off / w - origin.y;
        if 0 <= x < 8 && 0 <= y < 16 {
            assert(left[y] == kanji_font[base + y]);
        }
        if 8 <= x < 16 && 0 <= y < 16 {
            assert(right[y] == kanji_font[base + 16 + y]);
            assert((x - 8) == x % 8) by {
                vstd::arithmetic::div_mod::lemma_fundamental_div_mod_converse(x, 8, 1, x - 8);
            }
        }
        if 0 <= x < 8 {
            assert(x % 8 == x) by {
                vstd::arithmetic::div_mod::lemma_fundamental_div_mod_converse(x, 8, 0, x);
            }
        }
    }

    /// Puts the character `jc` at `origin` in `color`: an 8-pixel-wide glyph of
    /// `hankaku` (from character 0x20 on, 16 bytes each), a 16-pixel-wide glyph
    /// of `kanji_font` (from byte 0x1000 on, 32 bytes each), or a box where
    /// there is none; returns the width of the character.
    pub fn put_font(&self, mem: &mut Vec<u8>, origin: Point, jc: JisChar, color: u8, hankaku: &[u8], kanji_font: &[u8]) -> (r: i32)
        requires
            self.wf(old(mem).len() as nat),
        ensures
            final(mem).len() == old(mem).len(),
            forall|i: int| 0 <= i < old(mem).len() && !(self.buffer_ptr <= i < self.buffer_ptr + self.buffer_len)
                ==> #[trigger] final(mem)@[i] == old(mem)@[i],
            r == (match jc {
                JisChar::ANK(_) => 8i32,
                JisChar::Kanji(_) => 16i32,
            }),
            final(mem)@ == self.font_put(old(mem)@, origin, jc, color, hankaku@, kanji_font@),
    {
        match jc {
            JisChar::ANK(ch) => {
                if ch >= 0x21 && ch <= 0x7f {
                    let font_offset = (ch as usize - 0x20) * 16;
                    if font_offset + 16 <= hankaku.len() {
                        let glyph = vstd::slice::slice_subrange(hankaku, font_offset, font_offset + 16);
                        self.put_font_data(mem, origin, glyph, color);
                    }
                } else if ch >= 0x80 {
                    self.fill_rect(mem, origin.plus(Point { x: 1, y: 1 }), origin.plus(Point { x: 7, y: 14 }), color, false);
                }
                8
            },
            JisChar::Kanji(kanji) => {
                if (origin.x as i64) < self.size.width as i32 as i64 - 16 && (origin.y as i64) < self.size.height as i32 as i64 - 16 {
                    let base = 0x1000 + kanji as usize * 32;
                    if base + 32 <= kanji_font.len() {
                        let left = vstd::slice::slice_subrange(kanji_font, base, base + 16);
                        let right = vstd::slice::slice_subrange(kanji_font, base + 16, base + 32);
                        self.put_font_data(mem, origin, left, color);
                        self.put_font_data(mem, origin.plus(Point { x: 8, y: 0 }), right, color);
                    } else {
                        // not found, then tofu
                        self.fill_rect(mem, origin.plus(Point { x: 1, y: 1 }), origin.plus(Point { x: 14, y: 14 }), color, false);
                    }
                }
                16
            },
        }
    }

    /// The width in pixels of a character: a half-width one is 8, a kanji 16.
    pub open spec fn char_width(jc: JisChar) -> i32 {
        match jc {
            JisChar::ANK(_) => 8i32,
            JisChar::Kanji(_) => 16i32,
        }
    }

    /// `mem` after up to `n` characters of `bytes`, read in `mode` from
    /// `index` on, are drawn one after another from (`x`, `y`) on.
    pub open spec fn string_drawn(
        &self,
        mem: Seq<u8>,
        x: i32,
        y: i32,
        bytes: Seq<u8>,
        index: int,
        mode: LangMode,
        n: nat,
        color: u8,
        hankaku: Seq<u8>,
        kanji_font: Seq<u8>,
    ) -> Seq<u8>
        decreases n,
    {
        if n == 0 {
            mem
        } else {
            match spec_jis_char(bytes, index, mode) {
                None => mem,
                Some((c, next)) => self.string_drawn(
                    self.font_put(mem, Point { x, y }, c, color, hankaku, kanji_font),
                    x.wrapping_add(Self::char_width(c)),
                    y,
                    bytes,
                    next,
                    mode,
                    (n - 1) as nat,
                    color,
                    hankaku,
                    kanji_font,
                ),
            }
        }
    }

    /// Draws up to `max_len` characters of `chars` from `origin` on in
    /// `color`; returns what to redraw where `redraw` asks for it, the
    /// rectangle of `max_len` characters from `origin`.
    pub fn draw_string(
        &self,
        mem: &mut Vec<u8>,
        origin: Point,
        chars: &mut JisChars,
        max_len: usize,
        color: u8,
        redraw: bool,
        hankaku: &[u8],
        kanji_font: &[u8],
    ) -> (r: Option<Redraw>)
        requires
            self.wf(old(mem).len() as nat),
        ensures
            final(mem).len() == old(mem).len(),
            forall|i: int| 0 <= i < old(mem).len() && !(self.buffer_ptr <= i < self.buffer_ptr + self.buffer_len)
                ==> #[trigger] final(mem)@[i] == old(mem)@[i],
            final(mem)@ == self.string_drawn(
                old(mem)@,
                origin.x,
                origin.y,
                old(chars).data@,
                old(chars).index as int,
                old(chars).lang_mode,
                max_len as nat,
                color,
                hankaku@,
                kanji_font@,
            ),
            ({
                let b = Point { x: (origin.x + max_len as u32 as i32 * 8) as i32, y: (origin.y + 16) as i32 };
                &&& (r is Some <==> redraw && self.redraws(origin, b))
                &&& r matches Some(d) ==> self.redraw_of(final(mem)@, origin, b, d)
            }),
    {
        let mut x = origin.x;
        let y = origin.y;
        let mut count: usize = 0;
        while count < max_len
            invariant_except_break
                self.string_drawn(mem@, x, y, chars.data@, chars.index as int, chars.lang_mode, (max_len - count) as nat, color, hankaku@, kanji_font@)
                    == self.string_drawn(old(mem)@, origin.x, origin.y, old(chars).data@, old(chars).index as int, old(chars).lang_mode, max_len as nat, color, hankaku@, kanji_font@),
            invariant
                self.wf(mem.len() as nat),
                mem.len() == old(mem).len(),
                forall|i: int| 0 <= i < old(mem).len() && !(self.buffer_ptr <= i < self.buffer_ptr + self.buffer_len)
                    ==> #[trigger] mem@[i] == old(mem)@[i],
                count <= max_len,
                y == origin.y,
                chars.data == old(chars).data,
                chars.lang_mode == old(chars).lang_mode,
            ensures
                mem@ == self.string_drawn(old(mem)@, origin.x, origin.y, old(chars).data@, old(chars).index as int, old(chars).lang_mode, max_len as nat, color, hankaku@, kanji_font@),
            decreases max_len - count,
        {
            let ghost index = chars.index as int;
            match chars.next() {
                Some(ch) => {
                    let w = self.put_font(mem, Point { x, y }, ch, color, hankaku, kanji_font);
                    x = x.wrapping_add(w);
                },
                None => {
                    break;
                },
            }
            count += 1;
        }
        if redraw {
            let len32 = max_len as u32 as i32;
            let b = Point { x: (origin.x as i64 + len32 as i64 * 8) as i32, y: (origin.y as i64 + 16) as i32 };
            self.redraw_rect(mem, origin, b)
        } else {
            None
        }
    }

    /// The pixels of the part in the drawable area of the rectangle with
    /// corners `left_top` and `right_bottom`, for the host to draw: where
    /// they go in the client area, and their RGBA bytes.
    pub fn redraw_rect(&self, mem: &Vec<u8>, left_top: Point, right_bottom: Point) -> (r: Option<Redraw>)
        ensures
            r is Some <==> self.redraws(left_top, right_bottom),
            r matches Some(d) ==> self.redraw_of(mem@, left_top, right_bottom, d),
    {
        match self.try_clip_rect(left_top, right_bottom) {
            None => None,
            Some((lt, rb)) => {
                if lt.x as i64 > rb.x as i64 + 1 || lt.y as i64 > rb.y as i64 + 1 {
                    return None;
                }
                let width = (rb.x as i64 - lt.x as i64 + 1) as u64;
                let height = (rb.y as i64 - lt.y as i64 + 1) as u64;
                proof {
                    lemma_clip_inside(self.size, left_top, right_bottom);
                }
                assert(width <= 0x8000_0000 && height <= 0x8000_0000);
                let ghost wi = width as int;
                let mut rgba: Vec<u8> = Vec::new();
                let mut row: u64 = 0;
                while row < height
                    invariant
                        wi == width,
                        width <= 0x8000_0000,
                        height <= 0x8000_0000,
                        width == rb.x - lt.x + 1,
                        height == rb.y - lt.y + 1,
                        row <= height,
                        rgba@ == self.rgba_of(mem@, lt, wi, row * wi),
                    decreases height - row,
                {
                    let mut col: u64 = 0;
                    while col < width
                        invariant
                            wi == width,
                            width <= 0x8000_0000,
                            height <= 0x8000_0000,
                            width == rb.x - lt.x + 1,
                            height == rb.y - lt.y + 1,
                            row < height,
                            col <= width,
                            rgba@ == self.rgba_of(mem@, lt, wi, row * wi + col),
                        decreases width - col,
                    {
                        assert(row * width + col < width * height <= 0x4000_0000_0000_0000) by (nonlinear_arith)
                            requires
                                row < height,
                                col < width,
                                width <= 0x8000_0000,
                                height <= 0x8000_0000,
                        ;
                        let n = row * width + col;
                        proof {
                            vstd::arithmetic::div_mod::lemma_fundamental_div_mod_converse(n as int, wi, row as int, col as int);
                        }
                        let x = lt.x as i64 + col as i64;
                        let y = lt.y as i64 + row as i64;
                        let c = if x <= i32::MAX as i64 && y <= i32::MAX as i64 {
                            match self.pixel_index(mem.len(), x as i32, y as i32) {
                                Some(index) => mem[index],
                                None => 0,
                            }
                        } else {
                            0
                        };
                        let v = palette_color(c);
                        rgba.push((v % 0x100) as u8);
                        rgba.push(((v / 0x100) % 0x100) as u8);
                        rgba.push(((v / 0x1_0000) % 0x100) as u8);
                        rgba.push((v / 0x100_0000) as u8);
                        assert forall|j: int| 0 <= j < 4 implies (#[trigger] (4 * n + j)) / 4 == n && (4 * n + j) % 4 == j by {
                            vstd::arithmetic::div_mod::lemma_fundamental_div_mod_converse(4 * n + j, 4, n as int, j);
                        }
                        assert(rgba@ =~= self.rgba_of(mem@, lt, wi, n + 1)) by {
                            assert((4 * n + 0) / 4 == n);
                            assert((4 * n + 1) / 4 == n);
                            assert((4 * n + 2) / 4 == n);
                            assert((4 * n + 3) / 4 == n);
                        }
                        col += 1;
                    }
                    assert(row * wi + wi == (row + 1) * wi) by (nonlinear_arith);
                    row += 1;
                }
                assert(height * wi == wi * height) by (nonlinear_arith);
                Some(Redraw {
                    window_id: self.window_id,
                    x: (lt.x - 2) as u32,
                    y: (lt.y - 22) as u32,
                    width: width as u32,
                    height: height as u32,
                    rgba,
                })
            },
        }
    }
}

} // verus!
