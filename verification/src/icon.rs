use vstd::prelude::*;

verus! {

/// The squared distance of pixel (x, y) from the centre.
pub open spec fn dist_sq(x: int, y: int) -> int {
    (x - 16) * (x - 16) + (y - 16) * (y - 16)
}

/// `a` is the alpha of the fading edge at squared distance `d2`: the whole
/// part of 255 * (14 - sqrt(d2)) / 1.5, that is of 2380 - 170 * sqrt(d2).
pub open spec fn is_edge_alpha(d2: int, a: int) -> bool {
    &&& 0 <= a <= 255
    &&& 28900 * d2 <= (2380 - a) * (2380 - a)
    &&& (2379 - a) * (2379 - a) < 28900 * d2
}

/// `v` is channel `c` of pixel (x, y). The pixel lies in the disc when its
/// distance is at most 14 (d2 <= 196), in the core when at most 4.9 (d2 <= 24),
/// and in the fading edge when over 12.5 (d2 >= 157).
pub open spec fn channel_ok(x: int, y: int, c: int, v: u8) -> bool {
    let d2 = dist_sq(x, y);
    if d2 > 196 {
        v == 0
    } else if c == 3 {
        if d2 >= 157 {
            is_edge_alpha(d2, v as int)
        } else {
            v == 255
        }
    } else if d2 <= 24 {
        v == (if c == 0 {
            100u8
        } else if c == 1 {
            230u8
        } else {
            140u8
        })
    } else {
        v == (if c == 0 {
            60u8
        } else if c == 1 {
            170u8
        } else {
            100u8
        })
    }
}

pub open spec fn channel_ok_at(v: Seq<u8>, x: int, y: int, c: int) -> bool {
    channel_ok(x, y, c, v[128 * y + 4 * x + c])
}

/// `v` holds the whole icon: 4096 bytes, every channel of every pixel as above.
pub open spec fn is_icon(v: Seq<u8>) -> bool {
    &&& v.len() == 4096
    &&& forall|x: int, y: int, c: int|
        0 <= x < 32 && 0 <= y < 32 && 0 <= c < 4 ==> #[trigger] channel_ok_at(v, x, y, c)
}

proof fn lemma_edge_alpha_bound(d2: int, a: int)
    requires
        157 <= d2,
        (2379 - a) * (2379 - a) >= 28900 * d2,
        a <= 2379,
    ensures
        a < 249,
{
    assert(2130 * 2130 < 28900 * 157) by (nonlinear_arith);
    assert(28900 * 157 <= 28900 * d2) by (nonlinear_arith)
        requires
            157 <= d2,
    ;
    if a >= 249 {
        assert((2379 - a) * (2379 - a) <= 2130 * 2130) by (nonlinear_arith)
            requires
                249 <= a <= 2379,
        ;
    }
}

fn square(v: u32) -> (r: u32)
    requires
        v <= 65535,
    ensures
        r == v * v,
{
    assert(v * v <= 65535 * 65535) by (nonlinear_arith)
        requires
            v <= 65535,
    ;
    v * v
}

/// The alpha of the fading edge at squared distance `d2`.
fn edge_alpha(d2: u32) -> (a: u8)
    requires
        157 <= d2 <= 196,
    ensures
        is_edge_alpha(d2 as int, a as int),
{
    let ghost d = d2 as int;
    let target: u32 = 28900 * d2;
    let mut a: u32 = 0;
    assert(28900 * d <= 2380 * 2380) by (nonlinear_arith)
        requires
            d <= 196,
    ;
    while square(2379 - a) >= target
        invariant
            target == 28900 * d,
            157 <= d <= 196,
            a <= 249,
            28900 * d <= (2380 - a) * (2380 - a),
        decreases 249 - a,
    {
        proof {
            lemma_edge_alpha_bound(d, a as int);
        }
        a = a + 1;
    }
    a as u8
}

fn abs_diff(a: u32, b: u32) -> (r: u32)
    ensures
        r == if a >= b { a - b } else { b - a },
{
    if a >= b {
        a - b
    } else {
        b - a
    }
}

/// The four bytes of pixel (x, y).
fn pixel(x: u32, y: u32) -> (r: (u8, u8, u8, u8))
    requires
        x < 32,
        y < 32,
    ensures
        channel_ok(x as int, y as int, 0, r.0),
        channel_ok(x as int, y as int, 1, r.1),
        channel_ok(x as int, y as int, 2, r.2),
        channel_ok(x as int, y as int, 3, r.3),
{
    let dx = abs_diff(x, 16);
    let dy = abs_diff(y, 16);
    assert(dx * dx <= 256 && dy * dy <= 256) by (nonlinear_arith)
        requires
            dx <= 16,
            dy <= 16,
    ;
    let d2 = square(dx) + square(dy);
    assert(d2 == dist_sq(x as int, y as int)) by (nonlinear_arith)
        requires
            dx == (if x >= 16 { x - 16 } else { 16 - x }),
            dy == (if y >= 16 { y - 16 } else { 16 - y }),
            d2 == dx * dx + dy * dy,
    ;
    if d2 > 196 {
        (0, 0, 0, 0)
    } else {
        let alpha = if d2 >= 157 {
            edge_alpha(d2)
        } else {
            255u8
        };
        if d2 <= 24 {
            (100, 230, 140, alpha)
        } else {
            (60, 170, 100, alpha)
        }
    }
}

/// The icon shown in the tray: 32 by 32 pixels, 4 bytes (red, green, blue,
/// alpha) each, row after row. It is a green disc of radius 14 around the
/// centre (16, 16), with a lighter core of radius 4.9 and an edge that fades
/// out over its last 1.5 pixels; outside the disc it is transparent.
pub fn generate_icon_data() -> (rgba: Vec<u8>)
    ensures
        is_icon(rgba@),
{
    let mut rgba: Vec<u8> = Vec::new();
    let mut y: u32 = 0;
    while y < 32
        invariant
            y <= 32,
            rgba@.len() == 128 * y,
            forall|x: int, yy: int, c: int|
                0 <= x < 32 && 0 <= yy < y && 0 <= c < 4 ==> #[trigger] channel_ok_at(
                    rgba@,
                    x,
                    yy,
                    c,
                ),
        decreases 32 - y,
    {
        let mut x: u32 = 0;
        while x < 32
            invariant
                y < 32,
                x <= 32,
                rgba@.len() == 128 * y + 4 * x,
                forall|xx: int, yy: int, c: int|
                    0 <= xx < 32 && 0 <= yy < 32 && 0 <= c < 4 && (yy < y || (yy == y && xx
                        < x)) ==> #[trigger] channel_ok_at(rgba@, xx, yy, c),
            decreases 32 - x,
        {
            let (r, g, b, a) = pixel(x, y);
            let ghost before = rgba@;
            rgba.push(r);
            rgba.push(g);
            rgba.push(b);
            rgba.push(a);
            assert forall|xx: int, yy: int, c: int|
                0 <= xx < 32 && 0 <= yy < 32 && 0 <= c < 4 && (yy < y || (yy == y && xx < x
                    + 1)) implies #[trigger] channel_ok_at(rgba@, xx, yy, c) by {
                if yy == y && xx == x {
                    assert(rgba@[128 * yy + 4 * xx + c] == (if c == 0 {
                        r
                    } else if c == 1 {
                        g
                    } else if c == 2 {
                        b
                    } else {
                        a
                    }));
                } else {
                    assert(128 * yy + 4 * xx + c < before.len());
                    assert(channel_ok_at(before, xx, yy, c));
                    assert(rgba@[128 * yy + 4 * xx + c] == before[128 * yy + 4 * xx + c]);
                }
            }
            x = x + 1;
        }
        y = y + 1;
    }
    rgba
}

} // verus!
