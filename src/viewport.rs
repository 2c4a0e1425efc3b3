use vstd::prelude::*;

verus! {

/// A width and a height in pixels.
#[derive(Debug, Clone, Copy, PartialEq, Eq, Structural)]
pub struct Size {
    pub width: u32,
    pub height: u32,
}

/// Where a scaled virtual frame lands in the window: a uniform integer
/// scale factor and the top-left corner, in window pixels.
///
/// The offset is negative on an axis where the frame is wider (or taller)
/// than the window.
#[derive(Debug, Clone, Copy, PartialEq, Eq, Structural)]
pub struct Placement {
    pub scale: u32,
    pub offset_x: i32,
    pub offset_y: i32,
}

/// How many whole copies of `frame` fit side by side in `window`.
pub open spec fn fit(window: u32, frame: u32) -> int
    recommends
        frame > 0,
{
    window as int / frame as int
}

/// The scale factor: the largest integer scale at which the virtual frame
/// fits in the window on both axes, or 1 when not even scale 1 fits.
pub open spec fn placement_scale(virtual_size: Size, physical_size: Size) -> int
    recommends
        virtual_size.width > 0,
        virtual_size.height > 0,
{
    let sx = fit(physical_size.width, virtual_size.width);
    let sy = fit(physical_size.height, virtual_size.height);
    let m = if sx <= sy { sx } else { sy };
    if m >= 1 { m } else { 1 }
}

/// The offset that centers `frame * scale` pixels in `window` pixels, with an
/// odd leftover pixel going to the far side (rounded toward the top-left).
pub open spec fn centered_offset(window: u32, frame: u32, scale: int) -> int {
    (window as int - frame as int * scale) / 2
}

/// The placement of `virtual_size` in `physical_size`.
pub open spec fn placement_of(virtual_size: Size, physical_size: Size) -> Placement
    recommends
        virtual_size.width > 0,
        virtual_size.height > 0,
{
    let s = placement_scale(virtual_size, physical_size);
    Placement {
        scale: s as u32,
        offset_x: centered_offset(physical_size.width, virtual_size.width, s) as i32,
        offset_y: centered_offset(physical_size.height, virtual_size.height, s) as i32,
    }
}

/// Floor of `d / 2`.
fn half_floor(d: i64) -> (r: i32)
    requires
        -0x1_0000_0000 < d < 0x1_0000_0000,
    ensures
        r == d as int / 2,
{
    if d >= 0 {
        (d / 2) as i32
    } else {
        let up: i64 = (-d + 1) / 2;
        (-up) as i32
    }
}

/// Computes the scale and the centering offset of a `virtual_size` frame
/// drawn into a window of `physical_size`.
///
/// The scale is the largest integer factor at which the frame fits on both
/// axes; where the window is smaller than the frame on either axis it is 1,
/// and the frame overflows the window, centered (the offset goes negative).
pub fn compute_placement(virtual_size: Size, physical_size: Size) -> (r: Placement)
    requires
        virtual_size.width > 0,
        virtual_size.height > 0,
    ensures
        r == placement_of(virtual_size, physical_size),
        r.scale as int == placement_scale(virtual_size, physical_size),
        r.offset_x as int == centered_offset(physical_size.width, virtual_size.width, r.scale as int),
        r.offset_y as int == centered_offset(physical_size.height, virtual_size.height, r.scale as int),
{
    let scale_x: u32 = physical_size.width / virtual_size.width;
    let scale_y: u32 = physical_size.height / virtual_size.height;
    let mut scale: u32 = 1;
    if scale_x != scale && scale_y != scale && virtual_size.width <= physical_size.width
        && virtual_size.height <= physical_size.height {
        scale = if scale_x >= scale_y { scale_y } else { scale_x };
    }
    proof {
        lemma_fit_bounds(physical_size.width, virtual_size.width);
        lemma_fit_bounds(physical_size.height, virtual_size.height);
        assert(scale == placement_scale(virtual_size, physical_size));
        lemma_scaled_frame_bound(virtual_size.width, physical_size.width, virtual_size, physical_size);
        lemma_scaled_frame_bound(virtual_size.height, physical_size.height, virtual_size, physical_size);
    }
    let width: i64 = virtual_size.width as i64 * scale as i64;
    let height: i64 = virtual_size.height as i64 * scale as i64;
    let offset_x = half_floor(physical_size.width as i64 - width);
    let offset_y = half_floor(physical_size.height as i64 - height);
    Placement { scale, offset_x, offset_y }
}

/// `fit` is the largest count of whole frames that fit in the window.
pub proof fn lemma_fit_bounds(window: u32, frame: u32)
    requires
        frame > 0,
    ensures
        0 <= fit(window, frame) <= window,
        frame * fit(window, frame) <= window,
        window < frame * (fit(window, frame) + 1),
        window >= frame <==> fit(window, frame) >= 1,
{
    let q = fit(window, frame);
    let r = window as int % frame as int;
    vstd::arithmetic::div_mod::lemma_fundamental_div_mod(window as int, frame as int);
    vstd::arithmetic::div_mod::lemma_mod_bound(window as int, frame as int);
    vstd::arithmetic::div_mod::lemma_div_pos_is_pos(window as int, frame as int);
    vstd::arithmetic::div_mod::lemma_div_is_ordered_by_denominator(window as int, 1, frame as int);
    assert(window as int == frame * q + r);
    assert(frame * (q + 1) == frame * q + frame) by (nonlinear_arith);
    if window >= frame {
        vstd::arithmetic::div_mod::lemma_div_is_ordered(frame as int, window as int, frame as int);
        vstd::arithmetic::div_mod::lemma_div_by_self(frame as int);
    } else {
        vstd::arithmetic::div_mod::lemma_basic_div(window as int, frame as int);
    }
}

/// An axis-aligned rectangle in pixels. A negative height stands for a
/// vertically flipped read of the source surface.
#[derive(Debug, Clone, Copy, PartialEq, Eq, Structural)]
pub struct Rect {
    pub x: i64,
    pub y: i64,
    pub width: i64,
    pub height: i64,
}

/// The one blit that draws the offscreen frame into the window: what is read
/// from the render target and where it lands, with no rotation and no tint.
#[derive(Debug, Clone, Copy, PartialEq, Eq, Structural)]
pub struct Blit {
    pub source: Rect,
    pub dest: Rect,
}

/// The blit of a `virtual_size` render target into a `physical_size` window:
/// the whole target read bottom-up, drawn at the placement's offset and
/// scaled by its factor.
pub open spec fn blit_of(virtual_size: Size, physical_size: Size) -> Blit
    recommends
        virtual_size.width > 0,
        virtual_size.height > 0,
{
    let pl = placement_of(virtual_size, physical_size);
    Blit {
        source: Rect { x: 0, y: 0, width: virtual_size.width as i64, height: -(virtual_size.height as int) as i64 },
        dest: Rect {
            x: pl.offset_x as i64,
            y: pl.offset_y as i64,
            width: (virtual_size.width * pl.scale) as i64,
            height: (virtual_size.height * pl.scale) as i64,
        },
    }
}

/// Computes the blit that draws a `virtual_size` render target, placed by
/// [`compute_placement`], into a window of `physical_size`.
///
/// Render targets are stored bottom-up, so the source rectangle is the whole
/// target with its height negated.
pub fn frame_blit(virtual_size: Size, physical_size: Size) -> (r: Blit)
    requires
        virtual_size.width > 0,
        virtual_size.height > 0,
    ensures
        r == blit_of(virtual_size, physical_size),
        r.source == (Rect { x: 0, y: 0, width: virtual_size.width as i64, height: -(virtual_size.height as int) as i64 }),
        r.dest.x == placement_of(virtual_size, physical_size).offset_x,
        r.dest.y == placement_of(virtual_size, physical_size).offset_y,
        r.dest.width == virtual_size.width * placement_of(virtual_size, physical_size).scale,
        r.dest.height == virtual_size.height * placement_of(virtual_size, physical_size).scale,
{
    let pl = compute_placement(virtual_size, physical_size);
    proof {
        lemma_scaled_frame_bound(virtual_size.width, physical_size.width, virtual_size, physical_size);
        lemma_scaled_frame_bound(virtual_size.height, physical_size.height, virtual_size, physical_size);
    }
    let source = Rect {
        x: 0,
        y: 0,
        width: virtual_size.width as i64,
        height: -(virtual_size.height as i64),
    };
    let dest = Rect {
        x: pl.offset_x as i64,
        y: pl.offset_y as i64,
        width: virtual_size.width as i64 * pl.scale as i64,
        height: virtual_size.height as i64 * pl.scale as i64,
    };
    Blit { source, dest }
}

/// On either axis the scaled frame is no larger than the window or, when
/// the frame does not fit at all, than the frame itself.
proof fn lemma_scaled_frame_bound(frame: u32, window: u32, virtual_size: Size, physical_size: Size)
    requires
        virtual_size.width > 0,
        virtual_size.height > 0,
        (frame == virtual_size.width && window == physical_size.width) || (frame
            == virtual_size.height && window == physical_size.height),
    ensures
        0 <= frame * placement_scale(virtual_size, physical_size) <= if window >= frame {
            window
        } else {
            frame
        },
{
    lemma_fit_bounds(physical_size.width, virtual_size.width);
    lemma_fit_bounds(physical_size.height, virtual_size.height);
    let s = placement_scale(virtual_size, physical_size);
    let q = fit(window, frame);
    assert(s >= 1);
    if s > 1 {
        assert(s <= q);
        assert(frame * s <= frame * q) by (nonlinear_arith)
            requires
                s <= q,
        ;
    }
}

/// With a window at least as large as the frame on both axes, the scale is
/// at least 1 and the scaled frame lies inside the window, centered: the
/// margins on the two sides of an axis differ by at most one pixel.
pub proof fn lemma_placement_fits(virtual_size: Size, physical_size: Size)
    requires
        virtual_size.width > 0,
        virtual_size.height > 0,
        physical_size.width >= virtual_size.width,
        physical_size.height >= virtual_size.height,
    ensures
        ({
            let pl = placement_of(virtual_size, physical_size);
            &&& pl.scale >= 1
            &&& pl.offset_x >= 0
            &&& pl.offset_y >= 0
            &&& pl.offset_x + virtual_size.width * pl.scale <= physical_size.width
            &&& pl.offset_y + virtual_size.height * pl.scale <= physical_size.height
            &&& 0 <= physical_size.width - (pl.offset_x + virtual_size.width * pl.scale)
                - pl.offset_x <= 1
            &&& 0 <= physical_size.height - (pl.offset_y + virtual_size.height * pl.scale)
                - pl.offset_y <= 1
        }),
{
    lemma_scaled_frame_bound(virtual_size.width, physical_size.width, virtual_size, physical_size);
    lemma_scaled_frame_bound(virtual_size.height, physical_size.height, virtual_size, physical_size);
}

/// The scale is the largest at which the frame fits: no integer scale of 1
/// or more at which the frame fits in the window on both axes exceeds it.
pub proof fn lemma_scale_is_largest_fit(virtual_size: Size, physical_size: Size, s: int)
    requires
        virtual_size.width > 0,
        virtual_size.height > 0,
        s >= 1,
        virtual_size.width * s <= physical_size.width,
        virtual_size.height * s <= physical_size.height,
    ensures
        s <= placement_of(virtual_size, physical_size).scale,
{
    lemma_fit_bounds(physical_size.width, virtual_size.width);
    lemma_fit_bounds(physical_size.height, virtual_size.height);
    let qx = fit(physical_size.width, virtual_size.width);
    let qy = fit(physical_size.height, virtual_size.height);
    assert(s <= qx) by (nonlinear_arith)
        requires
            virtual_size.width * s <= physical_size.width,
            physical_size.width < virtual_size.width * (qx + 1),
            virtual_size.width > 0,
    ;
    assert(s <= qy) by (nonlinear_arith)
        requires
            virtual_size.height * s <= physical_size.height,
            physical_size.height < virtual_size.height * (qy + 1),
            virtual_size.height > 0,
    ;
}

/// A window that is the frame scaled by a whole `k >= 1` on both axes
/// gets scale `k` and a zero offset: the frame fills it exactly.
pub proof fn lemma_exact_multiple(virtual_size: Size, physical_size: Size, k: int)
    requires
        virtual_size.width > 0,
        virtual_size.height > 0,
        k >= 1,
        physical_size.width == virtual_size.width * k,
        physical_size.height == virtual_size.height * k,
    ensures
        placement_of(virtual_size, physical_size).scale == k,
        placement_of(virtual_size, physical_size).offset_x == (physical_size.width
            - virtual_size.width * k) / 2,
        placement_of(virtual_size, physical_size).offset_y == (physical_size.height
            - virtual_size.height * k) / 2,
        placement_of(virtual_size, physical_size).offset_x == 0,
        placement_of(virtual_size, physical_size).offset_y == 0,
{
    vstd::arithmetic::div_mod::lemma_div_multiples_vanish(k, virtual_size.width as int);
    vstd::arithmetic::div_mod::lemma_div_multiples_vanish(k, virtual_size.height as int);
    assert(k <= physical_size.width) by (nonlinear_arith)
        requires
            physical_size.width == virtual_size.width * k,
            virtual_size.width >= 1,
            k >= 1,
    ;
}

/// A window smaller than the frame on either axis gets scale 1.
pub proof fn lemma_smaller_window_scale_one(virtual_size: Size, physical_size: Size)
    requires
        virtual_size.width > 0,
        virtual_size.height > 0,
        physical_size.width < virtual_size.width || physical_size.height < virtual_size.height,
    ensures
        placement_of(virtual_size, physical_size).scale == 1,
{
    lemma_fit_bounds(physical_size.width, virtual_size.width);
    lemma_fit_bounds(physical_size.height, virtual_size.height);
}

} // verus!
