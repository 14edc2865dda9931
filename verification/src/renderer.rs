//! The double-buffered diff renderer. Drawing goes into the back buffer;
//! `render` swaps buffer roles and computes the minimal contiguous byte
//! runs that differ between the new frame and the previous one, for the
//! output device to write.

use vstd::prelude::*;
use vstd::pervasive::VecAdditionalExecFns;
use crate::fixed::{
    abs_i64, abs_int, clamp_fx, fx_add, fx_div, fx_div_spec, fx_sub, fx_trunc, fx_trunc_spec,
};
use crate::geometry::{wf_vec2_fx, Vec2};

verus! {

/// The glyph an empty screen cell holds.
pub const CHAR_EMPTY: u8 = 32;

/// The shaded-box glyph used for walls struck on a vertical boundary.
pub const BLACK_BOX_CHAR: u8 = 178;

/// The striped glyph used for walls struck on a horizontal boundary.
pub const STRIP_BOX_CHAR: u8 = 45;

/// A marker glyph for dots and debug points.
pub const AT_CHAR: u8 = 64;

/// The filler written into a fresh front buffer after a resize; it matches
/// no real glyph, so the next diff repaints every cell.
pub const FORCE_PAINT_CHAR: u8 = 1;

/// One contiguous changed run of a frame diff: move the cursor to cell
/// `(x, y)` and write `bytes` there in a single device write.
pub struct DiffRun {
    pub x: i16,
    pub y: i16,
    pub bytes: Vec<u8>,
}

impl View for DiffRun {
    type V = (int, int, Seq<u8>);

    open spec fn view(&self) -> (int, int, Seq<u8>) {
        (self.x as int, self.y as int, self.bytes@)
    }
}

/// How many cells a screen of dimensions `d` holds; the creation-time
/// sentinel dimensions count as zero cells.
pub open spec fn area_spec(d: Vec2<i16>) -> int {
    if d.x >= 0 && d.y >= 0 {
        d.x * d.y
    } else {
        0
    }
}

/// A sequence of `n` copies of `ch`.
pub open spec fn filled(n: int, ch: u8) -> Seq<u8> {
    Seq::new(n as nat, |i| ch)
}

/// Whether `(px, py)` lies inside a screen of dimensions `d`.
pub open spec fn in_bounds_spec(d: Vec2<i16>, px: int, py: int) -> bool {
    0 <= px < d.x && 0 <= py < d.y
}

/// The back buffer after writing `ch` at `(px, py)`: out-of-bounds writes
/// change nothing.
pub open spec fn draw_point_unnorm_spec(back: Seq<u8>, d: Vec2<i16>, px: int, py: int, ch: u8) -> Seq<u8> {
    if in_bounds_spec(d, px, py) {
        back.update(d.x * py + px, ch)
    } else {
        back
    }
}

/// Half of `y`, truncated toward zero: the vertical compression that maps
/// line-math coordinates onto character cells roughly twice as tall as wide.
pub open spec fn half_trunc(y: int) -> int {
    if y >= 0 {
        y / 2
    } else {
        -((-y) / 2)
    }
}

/// The back buffer after a normalized point draw: the y-coordinate is
/// halved before the bounds check and the write.
pub open spec fn draw_point_spec(back: Seq<u8>, d: Vec2<i16>, px: int, py: int, ch: u8) -> Seq<u8> {
    draw_point_unnorm_spec(back, d, px, half_trunc(py), ch)
}

/// The buffer after the digital-line walk from column `x` (exclusive of
/// `x1`) with cross-axis coordinate `y` and accumulated fractional error
/// `error`: each step draws one point (axes transposed when `steep`),
/// adds `derror` to the error, and once the error exceeds one half moves
/// `y` one step (up or down per `up`) and takes a whole unit back off.
pub open spec fn line_fold(
    buf: Seq<u8>,
    d: Vec2<i16>,
    steep: bool,
    up: bool,
    derror: int,
    x: int,
    x1: int,
    y: int,
    error: int,
    ch: u8,
) -> Seq<u8>
    decreases x1 - x,
{
    if x >= x1 {
        buf
    } else {
        let buf2 = if steep {
            draw_point_spec(buf, d, y, x, ch)
        } else {
            draw_point_spec(buf, d, x, y, ch)
        };
        let e2 = clamp_fx(error + derror);
        if e2 > 500_000 {
            line_fold(
                buf2,
                d,
                steep,
                up,
                derror,
                x + 1,
                x1,
                if up {
                    y + 1
                } else {
                    y - 1
                },
                clamp_fx(e2 - 1_000_000),
                ch,
            )
        } else {
            line_fold(buf2, d, steep, up, derror, x + 1, x1, y, e2, ch)
        }
    }
}

/// The buffer after rasterizing the segment from `(p0x, p0y)` to
/// `(p1x, p1y)`: transpose the axes when the segment is steep, order the
/// endpoints left to right, and walk the columns with the fractional
/// error stepping the cross axis.
pub open spec fn draw_line_spec(
    back: Seq<u8>,
    d: Vec2<i16>,
    p0x: int,
    p0y: int,
    p1x: int,
    p1y: int,
    ch: u8,
) -> Seq<u8> {
    let steep = abs_int(clamp_fx(p0x - p1x)) < abs_int(clamp_fx(p0y - p1y));
    let a0x = if steep {
        p0y
    } else {
        p0x
    };
    let a0y = if steep {
        p0x
    } else {
        p0y
    };
    let a1x = if steep {
        p1y
    } else {
        p1x
    };
    let a1y = if steep {
        p1x
    } else {
        p1y
    };
    let swapped = a0x > a1x;
    let b0x = if swapped {
        a1x
    } else {
        a0x
    };
    let b0y = if swapped {
        a1y
    } else {
        a0y
    };
    let b1x = if swapped {
        a0x
    } else {
        a1x
    };
    let b1y = if swapped {
        a0y
    } else {
        a1y
    };
    let dx = clamp_fx(b1x - b0x);
    let dy = clamp_fx(b1y - b0y);
    let derror = abs_int(fx_div_spec(dy, dx));
    line_fold(
        back,
        d,
        steep,
        b1y > b0y,
        derror,
        fx_trunc_spec(b0x),
        fx_trunc_spec(b1x),
        fx_trunc_spec(b0y),
        0,
        ch,
    )
}

/// The cursor position and byte span of the run covering indices `[a, e)`
/// of the new frame `f`, on a screen `w` cells wide.
pub open spec fn run_of(f: Seq<u8>, w: int, a: int, e: int) -> (int, int, Seq<u8>) {
    (a % w, a / w, f.subrange(a, e))
}

/// The diff scan from index `i` on, with `anchor` the start of the
/// currently open run (negative when none is open): a run opens at the
/// first index where the buffers differ, closes at the next index where
/// they agree again, and an open run at the end flushes to the buffer's
/// full length.
pub open spec fn diff_from(f: Seq<u8>, b: Seq<u8>, w: int, i: int, anchor: int) -> Seq<
    (int, int, Seq<u8>),
>
    decreases f.len() - i,
{
    if i < 0 || i >= f.len() {
        if anchor >= 0 {
            seq![run_of(f, w, anchor, f.len() as int)]
        } else {
            Seq::empty()
        }
    } else {
        let a2 = if anchor < 0 && f[i] != b[i] {
            i
        } else {
            anchor
        };
        if a2 >= 0 && f[i] == b[i] {
            seq![run_of(f, w, a2, i)] + diff_from(f, b, w, i + 1, -1)
        } else {
            diff_from(f, b, w, i + 1, a2)
        }
    }
}

/// All changed runs between the new frame `f` and the previous frame `b`.
pub open spec fn diff_spec(f: Seq<u8>, b: Seq<u8>, w: int) -> Seq<(int, int, Seq<u8>)> {
    diff_from(f, b, w, 0, -1)
}

/// Scanning a stretch where the buffers agree, with no run open, emits
/// nothing for that stretch.
proof fn lemma_diff_equal_segment(f: Seq<u8>, b: Seq<u8>, w: int, i: int, j: int)
    requires
        f.len() == b.len(),
        0 <= i <= j <= f.len(),
        forall|k: int| i <= k < j ==> f[k] == b[k],
    ensures
        diff_from(f, b, w, i, -1) == diff_from(f, b, w, j, -1),
    decreases j - i,
{
    if i < j {
        lemma_diff_equal_segment(f, b, w, i + 1, j);
    }
}

/// With a run open since `a` and the buffers differing up to `e`, the
/// scan closes exactly the run `[a, e)` — at the first agreeing index, or
/// at the end of the buffers.
proof fn lemma_diff_open_run(f: Seq<u8>, b: Seq<u8>, w: int, a: int, e: int, k: int)
    requires
        f.len() == b.len(),
        0 <= a,
        a < k <= e <= f.len(),
        forall|j: int| k <= j < e ==> f[j] != b[j],
        e < f.len() ==> f[e] == b[e],
    ensures
        diff_from(f, b, w, k, a) == if e < f.len() {
            seq![run_of(f, w, a, e)] + diff_from(f, b, w, e + 1, -1)
        } else {
            seq![run_of(f, w, a, e)]
        },
    decreases e - k,
{
    if k < e {
        lemma_diff_open_run(f, b, w, a, e, k + 1);
    }
}

/// For two equally long buffers that differ exactly on the index range
/// `[a, e)`, the diff is exactly one run: it covers `[a, e)` of the new
/// frame and is addressed at the cell `(a % w, a / w)`.
pub proof fn lemma_diff_single_range(f: Seq<u8>, b: Seq<u8>, w: int, a: int, e: int)
    requires
        f.len() == b.len(),
        0 <= a < e <= f.len(),
        forall|k: int| a <= k < e ==> f[k] != b[k],
        forall|k: int| 0 <= k < a ==> f[k] == b[k],
        forall|k: int| e <= k < f.len() ==> f[k] == b[k],
    ensures
        diff_spec(f, b, w) == seq![run_of(f, w, a, e)],
{
    lemma_diff_equal_segment(f, b, w, 0, a);
    lemma_diff_open_run(f, b, w, a, e, a + 1);
    if e < f.len() {
        lemma_diff_equal_segment(f, b, w, e + 1, f.len() as int);
        assert(seq![run_of(f, w, a, e)] + Seq::<(int, int, Seq<u8>)>::empty() =~= seq![
            run_of(f, w, a, e),
        ]);
    }
}

/// Identical buffers diff to no runs at all.
pub proof fn lemma_diff_identical(f: Seq<u8>, b: Seq<u8>, w: int)
    requires
        f.len() == b.len(),
        forall|k: int| 0 <= k < f.len() ==> f[k] == b[k],
    ensures
        diff_spec(f, b, w) == Seq::<(int, int, Seq<u8>)>::empty(),
{
    lemma_diff_equal_segment(f, b, w, 0, f.len() as int);
}

/// For buffers that differ exactly on two disjoint ranges separated by at
/// least one agreeing cell, the diff is exactly the two covering runs, in
/// scan order.
pub proof fn lemma_diff_two_ranges(
    f: Seq<u8>,
    b: Seq<u8>,
    w: int,
    a1: int,
    e1: int,
    a2: int,
    e2: int,
)
    requires
        f.len() == b.len(),
        0 <= a1 < e1,
        e1 < a2,
        a2 < e2 <= f.len(),
        forall|k: int| a1 <= k < e1 ==> f[k] != b[k],
        forall|k: int| a2 <= k < e2 ==> f[k] != b[k],
        forall|k: int| 0 <= k < a1 ==> f[k] == b[k],
        forall|k: int| e1 <= k < a2 ==> f[k] == b[k],
        forall|k: int| e2 <= k < f.len() ==> f[k] == b[k],
    ensures
        diff_spec(f, b, w) == seq![run_of(f, w, a1, e1), run_of(f, w, a2, e2)],
{
    lemma_diff_equal_segment(f, b, w, 0, a1);
    lemma_diff_open_run(f, b, w, a1, e1, a1 + 1);
    lemma_diff_equal_segment(f, b, w, e1 + 1, a2);
    lemma_diff_open_run(f, b, w, a2, e2, a2 + 1);
    if e2 < f.len() {
        lemma_diff_equal_segment(f, b, w, e2 + 1, f.len() as int);
    }
    assert(diff_spec(f, b, w) =~= seq![run_of(f, w, a1, e1), run_of(f, w, a2, e2)]);
}

/// The double-buffered screen: the front buffer holds the last painted
/// frame, the back buffer the frame being composed.
pub struct Renderer {
    pub screen_dimensions: Vec2<i16>,
    pub front: Vec<u8>,
    pub back: Vec<u8>,
}

impl Renderer {
    /// Both buffers always hold exactly one byte per screen cell.
    pub open spec fn wf(self) -> bool {
        &&& self.front@.len() == area_spec(self.screen_dimensions)
        &&& self.back@.len() == area_spec(self.screen_dimensions)
    }

    /// A renderer with sentinel dimensions and empty buffers; the first
    /// `update` call sizes it to the device.
    pub fn new() -> (r: Renderer)
        ensures
            r.wf(),
            r.screen_dimensions.x == -1,
            r.screen_dimensions.y == -1,
            r.front@ == Seq::<u8>::empty(),
            r.back@ == Seq::<u8>::empty(),
    {
        Renderer {
            screen_dimensions: Vec2 { x: -1, y: -1 },
            front: Vec::new(),
            back: Vec::new(),
        }
    }

    /// The current screen dimensions in cells.
    pub fn get_screen_dim(&self) -> (r: Vec2<i16>)
        ensures
            r == self.screen_dimensions,
    {
        self.screen_dimensions
    }

    /// Whether `pos` lies inside the screen.
    pub fn check_if_in_boundries(&self, pos: Vec2<i32>) -> (r: bool)
        ensures
            r == in_bounds_spec(self.screen_dimensions, pos.x as int, pos.y as int),
    {
        if (pos.x >= self.screen_dimensions.x as i32) || (pos.y >= self.screen_dimensions.y as i32)
            || (pos.x < 0) || (pos.y < 0) {
            false
        } else {
            true
        }
    }

    /// Overwrite the whole back buffer with `ch`.
    fn fill_back(&mut self, ch: u8)
        ensures
            final(self).back@ == filled(old(self).back@.len() as int, ch),
            final(self).front == old(self).front,
            final(self).screen_dimensions == old(self).screen_dimensions,
    {
        let n = self.back.len();
        let mut i: usize = 0;
        while i < n
            invariant
                i <= n,
                self.back@.len() == n,
                self.front == old(self).front,
                self.screen_dimensions == old(self).screen_dimensions,
                forall|k: int| 0 <= k < i ==> self.back@[k] == ch,
                forall|k: int| i <= k < n ==> self.back@[k] == old(self).back@[k],
            decreases n - i,
        {
            self.back.set(i, ch);
            i += 1;
        }
        assert(self.back@ =~= filled(n as int, ch));
    }

    /// Clear the back buffer to the empty glyph.
    pub fn clear_whole_screen(&mut self)
        ensures
            final(self).back@ == filled(old(self).back@.len() as int, CHAR_EMPTY),
            final(self).front == old(self).front,
            final(self).screen_dimensions == old(self).screen_dimensions,
    {
        self.fill_back(CHAR_EMPTY);
    }

    /// Fill the back buffer with a filler that matches no real glyph, so
    /// that the next diff repaints every cell.
    pub fn force_paint_whole_screen(&mut self)
        ensures
            final(self).back@ == filled(old(self).back@.len() as int, FORCE_PAINT_CHAR),
            final(self).front == old(self).front,
            final(self).screen_dimensions == old(self).screen_dimensions,
    {
        self.fill_back(FORCE_PAINT_CHAR);
    }

    /// Fill the back buffer with the shaded-box glyph.
    pub fn blackout_whole_screen(&mut self)
        ensures
            final(self).back@ == filled(old(self).back@.len() as int, BLACK_BOX_CHAR),
            final(self).front == old(self).front,
            final(self).screen_dimensions == old(self).screen_dimensions,
    {
        self.fill_back(BLACK_BOX_CHAR);
    }

    /// Exchange the roles of the two buffers in constant time.
    pub fn swap_screens(&mut self)
        ensures
            final(self).front == old(self).back,
            final(self).back == old(self).front,
            final(self).screen_dimensions == old(self).screen_dimensions,
    {
        core::mem::swap(&mut self.front, &mut self.back);
    }

    /// A vector of `n` copies of `ch`.
    fn make_filled(n: usize, ch: u8) -> (r: Vec<u8>)
        ensures
            r@ == filled(n as int, ch),
    {
        let mut v: Vec<u8> = Vec::new();
        let mut i: usize = 0;
        while i < n
            invariant
                i <= n,
                v@.len() == i,
                forall|k: int| 0 <= k < i ==> v@[k] == ch,
            decreases n - i,
        {
            v.push(ch);
            i += 1;
        }
        assert(v@ =~= filled(n as int, ch));
        v
    }

    /// Adopt the device dimensions. When they changed — including the very
    /// first call, from the sentinel — both buffers are rebuilt: the front
    /// is force-painted so the next diff repaints every cell, and the back
    /// is cleared for composing.
    fn resize(&mut self, device_dims: Vec2<i16>)
        requires
            old(self).wf(),
            device_dims.x >= 0,
            device_dims.y >= 0,
        ensures
            final(self).wf(),
            final(self).screen_dimensions == device_dims,
            device_dims == old(self).screen_dimensions ==> final(self).front == old(self).front
                && final(self).back == old(self).back,
            device_dims != old(self).screen_dimensions ==> final(self).front@ == filled(
                area_spec(device_dims),
                FORCE_PAINT_CHAR,
            ) && final(self).back@ == filled(area_spec(device_dims), CHAR_EMPTY),
    {
        let changed = device_dims.x != self.screen_dimensions.x || device_dims.y
            != self.screen_dimensions.y;
        self.screen_dimensions = device_dims;
        if changed {
            proof {
                crate::fixed::lemma_mul_le(
                    device_dims.x as int,
                    device_dims.y as int,
                    0x7fff,
                    0x7fff,
                );
            }
            let len: usize = (device_dims.x as usize) * (device_dims.y as usize);
            self.front = Self::make_filled(len, FORCE_PAINT_CHAR);
            self.back = Self::make_filled(len, CHAR_EMPTY);
        }
    }

    /// Begin a frame: adopt the current device dimensions (resizing and
    /// forcing a repaint when they changed) and clear the back buffer for
    /// composing.
    pub fn update(&mut self, device_dims: Vec2<i16>)
        requires
            old(self).wf(),
            device_dims.x >= 0,
            device_dims.y >= 0,
        ensures
            final(self).wf(),
            final(self).screen_dimensions == device_dims,
            final(self).back@ == filled(area_spec(device_dims), CHAR_EMPTY),
            device_dims == old(self).screen_dimensions ==> final(self).front
                == old(self).front,
            device_dims != old(self).screen_dimensions ==> final(self).front@ == filled(
                area_spec(device_dims),
                FORCE_PAINT_CHAR,
            ),
    {
        self.resize(device_dims);
        self.clear_whole_screen();
    }

    /// Write `ch` at `pos` in the back buffer; out-of-bounds draws are
    /// silently clipped.
    pub fn draw_point_unnormalized(&mut self, pos: Vec2<i32>, ch: u8)
        requires
            old(self).wf(),
        ensures
            final(self).wf(),
            final(self).back@ == draw_point_unnorm_spec(
                old(self).back@,
                old(self).screen_dimensions,
                pos.x as int,
                pos.y as int,
                ch,
            ),
            final(self).front == old(self).front,
            final(self).screen_dimensions == old(self).screen_dimensions,
    {
        if !self.check_if_in_boundries(pos) {
            return ;
        }
        proof {
            assert(0 <= self.screen_dimensions.x * pos.y && self.screen_dimensions.x * pos.y
                + pos.x < self.screen_dimensions.x * self.screen_dimensions.y)
                by (nonlinear_arith)
                requires
                    0 <= pos.x < self.screen_dimensions.x,
                    0 <= pos.y < self.screen_dimensions.y,
            ;
            crate::fixed::lemma_mul_le(
                self.screen_dimensions.x as int,
                self.screen_dimensions.y as int,
                0x7fff,
                0x7fff,
            );
        }
        let idx: i32 = self.screen_dimensions.x as i32 * pos.y + pos.x;
        self.back.set(idx as usize, ch);
    }

    /// Write `ch` at `pos` with the y-coordinate halved first, so that
    /// line math in roughly square units lands on character cells about
    /// twice as tall as they are wide.
    pub fn draw_point(&mut self, pos: Vec2<i32>, ch: u8)
        requires
            old(self).wf(),
        ensures
            final(self).wf(),
            final(self).back@ == draw_point_spec(
                old(self).back@,
                old(self).screen_dimensions,
                pos.x as int,
                pos.y as int,
                ch,
            ),
            final(self).front == old(self).front,
            final(self).screen_dimensions == old(self).screen_dimensions,
    {
        let hy: i32 = if pos.y >= 0 {
            pos.y / 2
        } else {
            -((-(pos.y as i64) / 2) as i32)
        };
        self.draw_point_unnormalized(Vec2 { x: pos.x, y: hy }, ch);
    }

    /// Rasterize the segment from `pos0` to `pos1` (fixed-point endpoints)
    /// with glyph `ch`: transpose the axes when the segment is steeper
    /// than a half turn's diagonal, walk left to right one column at a
    /// time, and carry a fractional error that bumps the cross axis by one
    /// whenever it exceeds one half.
    pub fn draw_line(&mut self, pos0: Vec2<i64>, pos1: Vec2<i64>, ch: u8)
        requires
            old(self).wf(),
            wf_vec2_fx(pos0),
            wf_vec2_fx(pos1),
        ensures
            final(self).wf(),
            final(self).back@ == draw_line_spec(
                old(self).back@,
                old(self).screen_dimensions,
                pos0.x as int,
                pos0.y as int,
                pos1.x as int,
                pos1.y as int,
                ch,
            ),
            final(self).front == old(self).front,
            final(self).screen_dimensions == old(self).screen_dimensions,
    {
        let mut p0 = pos0;
        let mut p1 = pos1;
        let mut steep = false;

        let sdx = fx_sub(p0.x, p1.x);
        let sdy = fx_sub(p0.y, p1.y);
        if abs_i64(sdx) < abs_i64(sdy) {
            p0 = Vec2 { x: p0.y, y: p0.x };
            p1 = Vec2 { x: p1.y, y: p1.x };
            steep = true;
        }
        if p0.x > p1.x {
            let tmp = p0;
            p0 = p1;
            p1 = tmp;
        }

        let dx = fx_sub(p1.x, p0.x);
        let dy = fx_sub(p1.y, p0.y);
        let derror = abs_i64(fx_div(dy, dx));
        let up = p1.y > p0.y;

        let xs = fx_trunc(p0.x);
        let x1t = fx_trunc(p1.x);
        let mut y: i64 = fx_trunc(p0.y);
        let mut error: i64 = 0;
        let mut x: i64 = xs;

        while x < x1t
            invariant
                self.wf(),
                self.front == old(self).front,
                self.screen_dimensions == old(self).screen_dimensions,
                xs <= x <= x1t,
                -150_000_000 <= xs,
                x1t <= 150_000_000,
                abs_int(y as int) <= 150_000_000 + (x - xs),
                -500_000 <= error,
                crate::fixed::in_fx_range(error as int),
                0 <= derror,
                line_fold(
                    self.back@,
                    self.screen_dimensions,
                    steep,
                    up,
                    derror as int,
                    x as int,
                    x1t as int,
                    y as int,
                    error as int,
                    ch,
                ) == line_fold(
                    old(self).back@,
                    old(self).screen_dimensions,
                    steep,
                    up,
                    derror as int,
                    xs as int,
                    x1t as int,
                    fx_trunc_spec(p0.y as int),
                    0,
                    ch,
                ),
            decreases x1t - x,
        {
            if steep {
                self.draw_point(Vec2 { x: y as i32, y: x as i32 }, ch);
            } else {
                self.draw_point(Vec2 { x: x as i32, y: y as i32 }, ch);
            }

            error = fx_add(error, derror);
            if error > 500_000 {
                if up {
                    y += 1;
                } else {
                    y -= 1;
                }
                error = fx_sub(error, 1_000_000);
            }
            x += 1;
        }
    }

    /// Draw a small plus-shaped marker centered at `pos`: one segment
    /// three world units long on each side of the center, along each axis.
    pub fn draw_dot(&mut self, pos: Vec2<i64>, ch: u8)
        requires
            old(self).wf(),
            wf_vec2_fx(pos),
        ensures
            final(self).wf(),
            final(self).back@ == ({
                let d = old(self).screen_dimensions;
                let first = draw_line_spec(
                    old(self).back@,
                    d,
                    clamp_fx(pos.x + 3_000_000),
                    pos.y as int,
                    clamp_fx(pos.x - 3_000_000),
                    pos.y as int,
                    ch,
                );
                draw_line_spec(
                    first,
                    d,
                    pos.x as int,
                    clamp_fx(pos.y + 3_000_000),
                    pos.x as int,
                    clamp_fx(pos.y - 3_000_000),
                    ch,
                )
            }),
            final(self).front == old(self).front,
            final(self).screen_dimensions == old(self).screen_dimensions,
    {
        self.draw_line(
            Vec2 { x: fx_add(pos.x, 3_000_000), y: pos.y },
            Vec2 { x: fx_sub(pos.x, 3_000_000), y: pos.y },
            ch,
        );
        self.draw_line(
            Vec2 { x: pos.x, y: fx_add(pos.y, 3_000_000) },
            Vec2 { x: pos.x, y: fx_sub(pos.y, 3_000_000) },
            ch,
        );
    }

    /// The cursor position and copied byte span for the run `[a, e)` of
    /// the front buffer.
    fn make_run(&self, a: usize, e: usize) -> (r: DiffRun)
        requires
            self.wf(),
            a < e <= self.front@.len(),
        ensures
            r@ == run_of(self.front@, self.screen_dimensions.x as int, a as int, e as int),
    {
        proof {
            let sx = self.screen_dimensions.x as int;
            let sy = self.screen_dimensions.y as int;
            assert(sx >= 0 && sy >= 0 && sx * sy > 0);
            assert(sx > 0 && sy > 0) by (nonlinear_arith)
                requires
                    sx >= 0,
                    sy >= 0,
                    sx * sy > 0,
            ;
            assert(a as int / sx < sy) by (nonlinear_arith)
                requires
                    0 < sx,
                    (a as int) < sx * sy,
            ;
        }
        let w: usize = self.screen_dimensions.x as usize;
        let x: i16 = (a % w) as i16;
        let y: i16 = (a / w) as i16;
        let mut bytes: Vec<u8> = Vec::new();
        let mut j: usize = a;
        while j < e
            invariant
                a <= j <= e <= self.front@.len(),
                bytes@ == self.front@.subrange(a as int, j as int),
            decreases e - j,
        {
            let byte: u8 = self.front[j];
            bytes.push(byte);
            proof {
                assert(self.front@.subrange(a as int, (j + 1) as int) =~= self.front@.subrange(
                    a as int,
                    j as int,
                ).push(self.front@[j as int]));
            }
            j += 1;
        }
        DiffRun { x, y, bytes }
    }

    /// Scan the two buffers and collect the contiguous byte runs where the
    /// newly painted front frame differs from the previous one.
    pub fn render_frame(&self) -> (runs: Vec<DiffRun>)
        requires
            self.wf(),
        ensures
            runs@.map_values(|r: DiffRun| r@) == diff_spec(
                self.front@,
                self.back@,
                self.screen_dimensions.x as int,
            ),
    {
        let ghost w: int = self.screen_dimensions.x as int;
        let mut runs: Vec<DiffRun> = Vec::new();
        let n: usize = self.front.len();
        proof {
            if self.screen_dimensions.x >= 0 && self.screen_dimensions.y >= 0 {
                crate::fixed::lemma_mul_le(
                    self.screen_dimensions.x as int,
                    self.screen_dimensions.y as int,
                    0x7fff,
                    0x7fff,
                );
            }
        }
        let mut anchor: i64 = -1;
        let mut i: usize = 0;
        while i < n
            invariant
                self.wf(),
                i <= n,
                n == self.front@.len(),
                n == self.back@.len(),
                n <= 0x4000_0000,
                anchor == -1 || (0 <= anchor && anchor < i),
                runs@.map_values(|r: DiffRun| r@) + diff_from(
                    self.front@,
                    self.back@,
                    w,
                    i as int,
                    anchor as int,
                ) == diff_spec(self.front@, self.back@, w),
                w == self.screen_dimensions.x as int,
            decreases n - i,
        {
            let ghost runs_before = runs@.map_values(|r: DiffRun| r@);
            let ghost anchor_before: int = anchor as int;
            if anchor == -1 && self.front[i] != self.back[i] {
                anchor = i as i64;
            }
            if anchor != -1 && self.front[i] == self.back[i] {
                let run = self.make_run(anchor as usize, i);
                runs.push(run);
                proof {
                    assert(runs@.map_values(|r: DiffRun| r@) =~= runs_before.push(run@));
                    assert(runs_before.push(run@) + diff_from(
                        self.front@,
                        self.back@,
                        w,
                        i + 1,
                        -1,
                    ) =~= runs_before + (seq![run@] + diff_from(
                        self.front@,
                        self.back@,
                        w,
                        i + 1,
                        -1,
                    )));
                }
                anchor = -1;
            }
            i += 1;
        }
        if anchor != -1 {
            let ghost runs_before = runs@.map_values(|r: DiffRun| r@);
            let run = self.make_run(anchor as usize, n);
            runs.push(run);
            proof {
                assert(runs@.map_values(|r: DiffRun| r@) =~= runs_before.push(run@));
                assert(runs_before.push(run@) =~= runs_before + seq![run@]);
            }
        } else {
            proof {
                assert(runs@.map_values(|r: DiffRun| r@) + Seq::<(int, int, Seq<u8>)>::empty()
                    =~= runs@.map_values(|r: DiffRun| r@));
            }
        }
        runs
    }

    /// Finish a frame: swap buffer roles (what was just drawn becomes the
    /// reference frame) and return the changed runs against the previous
    /// frame, newly drawn bytes included.
    pub fn render(&mut self) -> (runs: Vec<DiffRun>)
        requires
            old(self).wf(),
        ensures
            final(self).wf(),
            final(self).front == old(self).back,
            final(self).back == old(self).front,
            final(self).screen_dimensions == old(self).screen_dimensions,
            runs@.map_values(|r: DiffRun| r@) == diff_spec(
                old(self).back@,
                old(self).front@,
                old(self).screen_dimensions.x as int,
            ),
    {
        self.swap_screens();
        self.render_frame()
    }
}

} // verus!
