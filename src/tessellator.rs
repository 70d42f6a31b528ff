//! Filling a rounded rectangle into a triangle mesh, with an optional
//! feather band inside its border over which the color fades out.
use vstd::prelude::*;

use crate::color::{spec_transparent, Color32};
use crate::geometry::{Pos2, Rect, COORD_LIMIT};
use crate::mesh::{bounds_are, Mesh, Vertex};

verus! {

/// Segments in the quarter circle of each rounded corner.
pub const QUADRANT_SEGMENTS: usize = 8;

/// Fixed-point scale of `unit_cos`.
pub const ARC_SCALE: i64 = 1024;

/// cos(k * 90° / 8) scaled by 1024, rounded to the nearest integer.
pub open spec fn unit_cos(k: int) -> int {
    if k == 0 {
        1024
    } else if k == 1 {
        1004
    } else if k == 2 {
        946
    } else if k == 3 {
        851
    } else if k == 4 {
        724
    } else if k == 5 {
        569
    } else if k == 6 {
        392
    } else if k == 7 {
        200
    } else {
        0
    }
}

/// Offset along one axis of the `k`-th point of a quarter circle of radius `r`.
pub open spec fn arc(r: int, k: int) -> int {
    r * unit_cos(k) / ARC_SCALE as int
}

/// The corner radius actually used: at most half of either side.
pub open spec fn clamp_radius(rect: Rect, r: int) -> int {
    let hw = rect.spec_width() / 2;
    let hh = rect.spec_height() / 2;
    let a = if r <= hw { r } else { hw };
    if a <= hh { a } else { hh }
}

/// Points on each corner of the outline: a single one for a sharp corner.
pub open spec fn points_per_corner(r: int) -> int {
    if r == 0 { 1 } else { QUADRANT_SEGMENTS as int + 1 }
}

/// x of point `j` of corner `c`. The corners run bottom-right, bottom-left,
/// top-left, top-right, each from one side to the next, clockwise on screen.
pub open spec fn corner_x(rect: Rect, r: int, c: int, j: int) -> int {
    let n = QUADRANT_SEGMENTS as int;
    if c == 0 {
        rect.max.x - r + arc(r, j)
    } else if c == 1 {
        rect.min.x + r - arc(r, n - j)
    } else if c == 2 {
        rect.min.x + r - arc(r, j)
    } else {
        rect.max.x - r + arc(r, n - j)
    }
}

/// y of point `j` of corner `c`.
pub open spec fn corner_y(rect: Rect, r: int, c: int, j: int) -> int {
    let n = QUADRANT_SEGMENTS as int;
    if c == 0 {
        rect.max.y - r + arc(r, n - j)
    } else if c == 1 {
        rect.max.y - r + arc(r, j)
    } else if c == 2 {
        rect.min.y + r - arc(r, n - j)
    } else {
        rect.min.y + r - arc(r, j)
    }
}

/// The `i`-th point of the outline of `rect` rounded by `r`.
pub open spec fn outline_point(rect: Rect, r: int, per: int, i: int) -> Pos2 {
    Pos2 {
        x: corner_x(rect, r, i / per, i % per) as i64,
        y: corner_y(rect, r, i / per, i % per) as i64,
    }
}

/// `vs[off..off + 4 * per]` is the outline of `rect` rounded by `r`, in `color`.
pub open spec fn outline_at(
    vs: Seq<Vertex>,
    off: int,
    rect: Rect,
    r: int,
    per: int,
    color: Color32,
) -> bool {
    forall|t: int|
        off <= t < off + 4 * per ==> #[trigger] vs[t] == (Vertex {
            pos: outline_point(rect, r, per, t - off),
            color,
        })
}

/// Index `t` of a fan of triangles over an outline: (0, k + 1, k + 2) for each k.
pub open spec fn fan_index(t: int) -> int {
    if t % 3 == 0 { 0 } else { t / 3 + t % 3 }
}

/// Index `t` of the band between an inner outline at 0..n and an outer one at
/// n..2n: two triangles (i, j, n + j) and (i, n + j, n + i) for each i, j = i + 1 mod n.
pub open spec fn band_index(n: int, t: int) -> int {
    let i = t / 6;
    let s = t % 6;
    let j = if i + 1 == n { 0 } else { i + 1 };
    if s == 0 || s == 3 {
        i
    } else if s == 1 {
        j
    } else if s == 2 || s == 4 {
        n + j
    } else {
        n + i
    }
}

/// `rect` moved inward by `f` on every side; a side that would cross the
/// middle stops there.
pub open spec fn spec_shrink(rect: Rect, f: int) -> Rect {
    let mx = rect.min.x + rect.spec_width() / 2;
    let my = rect.min.y + rect.spec_height() / 2;
    Rect {
        min: Pos2 {
            x: (if rect.min.x + f <= mx { rect.min.x + f } else { mx }) as i64,
            y: (if rect.min.y + f <= my { rect.min.y + f } else { my }) as i64,
        },
        max: Pos2 {
            x: (if rect.max.x - f >= mx { rect.max.x - f } else { mx }) as i64,
            y: (if rect.max.y - f >= my { rect.max.y - f } else { my }) as i64,
        },
    }
}

/// The radius of the inner outline of a feathered fill.
pub open spec fn inner_radius(rect: Rect, r: int, f: int) -> int {
    clamp_radius(spec_shrink(rect, f), if f < r { r - f } else { 0 })
}

/// The mesh of `rect` with corners rounded by `radius`, filled with `fill`.
/// With `feather == 0` it is a fan over the outline. Otherwise the fan covers
/// the outline moved inward by `feather`, and a band of triangles joins it to
/// the outline itself, whose vertices are transparent. A negative rect gives
/// an empty mesh.
pub open spec fn is_rounded_rect_mesh(
    m: Mesh,
    rect: Rect,
    radius: int,
    fill: Color32,
    feather: int,
) -> bool {
    let vs = m.vertices@;
    let is = m.indices@;
    if rect.spec_is_negative() {
        vs.len() == 0 && is.len() == 0
    } else {
        let r = clamp_radius(rect, radius);
        let per = points_per_corner(r);
        let n = 4 * per;
        if feather == 0 {
            &&& vs.len() == n
            &&& outline_at(vs, 0, rect, r, per, fill)
            &&& is.len() == 3 * (n - 2)
            &&& forall|t: int| 0 <= t < is.len() ==> #[trigger] is[t] == fan_index(t)
        } else {
            let inner = spec_shrink(rect, feather);
            &&& vs.len() == 2 * n
            &&& outline_at(vs, 0, inner, inner_radius(rect, r, feather), per, fill)
            &&& outline_at(vs, n, rect, r, per, spec_transparent())
            &&& is.len() == 3 * (n - 2) + 6 * n
            &&& forall|t: int|
                0 <= t < 3 * (n - 2) ==> #[trigger] is[t] == fan_index(t)
            &&& forall|t: int|
                3 * (n - 2) <= t < is.len() ==> #[trigger] is[t] == band_index(n, t - 3 * (n - 2))
        }
    }
}

proof fn lemma_arc_bounds(r: int, k: int)
    requires
        0 <= r,
        0 <= k <= QUADRANT_SEGMENTS,
    ensures
        0 <= arc(r, k) <= r,
        k == 0 ==> arc(r, k) == r,
        k == QUADRANT_SEGMENTS ==> arc(r, k) == 0,
{
    let c = unit_cos(k);
    assert(0 <= c <= 1024);
    assert(0 <= r * c <= r * 1024) by (nonlinear_arith)
        requires
            0 <= r,
            0 <= c <= 1024,
    ;
    assert((r * 1024) / 1024 == r) by (nonlinear_arith);
    assert(r * c / 1024 <= r * 1024 / 1024) by (nonlinear_arith)
        requires
            0 <= r * c <= r * 1024,
    ;
}

fn quadrant_cos(k: usize) -> (c: i64)
    requires
        k <= QUADRANT_SEGMENTS,
    ensures
        c == unit_cos(k as int),
{
    match k {
        0 => 1024,
        1 => 1004,
        2 => 946,
        3 => 851,
        4 => 724,
        5 => 569,
        6 => 392,
        7 => 200,
        _ => 0,
    }
}

fn arc_offset(r: i64, k: usize) -> (d: i64)
    requires
        0 <= r <= 4 * COORD_LIMIT,
        k <= QUADRANT_SEGMENTS,
    ensures
        d == arc(r as int, k as int),
        0 <= d <= r,
{
    proof {
        lemma_arc_bounds(r as int, k as int);
    }
    let c = quadrant_cos(k);
    assert(0 <= r * c <= 4 * COORD_LIMIT * 1024) by (nonlinear_arith)
        requires
            0 <= r <= 4 * COORD_LIMIT,
            0 <= c <= 1024,
    ;
    r * c / ARC_SCALE
}

/// The radius clamped to half of either side of `rect`.
fn clamped_radius(rect: &Rect, r: i64) -> (c: i64)
    requires
        rect.within(4 * COORD_LIMIT),
        !rect.spec_is_negative(),
        0 <= r,
    ensures
        c == clamp_radius(*rect, r as int),
        0 <= c <= r,
        c <= rect.spec_width() / 2,
        c <= rect.spec_height() / 2,
{
    let hw = (rect.max.x - rect.min.x) / 2;
    let hh = (rect.max.y - rect.min.y) / 2;
    let a = if r <= hw { r } else { hw };
    if a <= hh { a } else { hh }
}

/// `rect` moved inward by `f` on every side, each side stopping at the middle.
fn shrink(rect: &Rect, f: i64) -> (r: Rect)
    requires
        rect.within(2 * COORD_LIMIT),
        !rect.spec_is_negative(),
        0 <= f,
    ensures
        r == spec_shrink(*rect, f as int),
        r.within(2 * COORD_LIMIT),
        !r.spec_is_negative(),
        rect.min.x <= r.min.x && r.max.x <= rect.max.x,
        rect.min.y <= r.min.y && r.max.y <= rect.max.y,
{
    let hw = (rect.max.x - rect.min.x) / 2;
    let hh = (rect.max.y - rect.min.y) / 2;
    let mx = rect.min.x + hw;
    let my = rect.min.y + hh;
    let min_x = if f <= hw { rect.min.x + f } else { mx };
    let min_y = if f <= hh { rect.min.y + f } else { my };
    let max_x = if f <= rect.max.x - mx { rect.max.x - f } else { mx };
    let max_y = if f <= rect.max.y - my { rect.max.y - f } else { my };
    Rect { min: Pos2 { x: min_x, y: min_y }, max: Pos2 { x: max_x, y: max_y } }
}

/// Point `j` of corner `c` of the outline of `rect` rounded by `r`.
fn corner_point(rect: &Rect, r: i64, c: usize, j: usize) -> (p: Pos2)
    requires
        rect.within(2 * COORD_LIMIT),
        0 <= r <= rect.spec_width() / 2,
        r <= rect.spec_height() / 2,
        c < 4,
        j <= QUADRANT_SEGMENTS,
    ensures
        p == (Pos2 {
            x: corner_x(*rect, r as int, c as int, j as int) as i64,
            y: corner_y(*rect, r as int, c as int, j as int) as i64,
        }),
        rect.spec_contains(p),
{
    let n = QUADRANT_SEGMENTS;
    let a = arc_offset(r, j);
    let b = arc_offset(r, n - j);
    if c == 0 {
        Pos2 { x: rect.max.x - r + a, y: rect.max.y - r + b }
    } else if c == 1 {
        Pos2 { x: rect.min.x + r - b, y: rect.max.y - r + a }
    } else if c == 2 {
        Pos2 { x: rect.min.x + r - a, y: rect.min.y + r - b }
    } else {
        Pos2 { x: rect.max.x - r + b, y: rect.min.y + r - a }
    }
}

/// Appends the outline of `rect` rounded by `r`, `per` points to a corner.
fn push_outline(vs: &mut Vec<Vertex>, rect: &Rect, r: i64, per: usize, color: Color32)
    requires
        rect.within(2 * COORD_LIMIT),
        0 <= r <= rect.spec_width() / 2,
        r <= rect.spec_height() / 2,
        1 <= per <= QUADRANT_SEGMENTS + 1,
        old(vs)@.len() + 4 * per <= usize::MAX,
    ensures
        final(vs)@.len() == old(vs)@.len() + 4 * per,
        final(vs)@.subrange(0, old(vs)@.len() as int) == old(vs)@,
        outline_at(final(vs)@, old(vs)@.len() as int, *rect, r as int, per as int, color),
        forall|t: int|
            old(vs)@.len() <= t < final(vs)@.len() ==> rect.spec_contains(#[trigger] final(vs)@[t].pos),
{
    let ghost v0 = vs@;
    let base = vs.len();
    let total = 4 * per;
    let mut i: usize = 0;
    while i < total
        invariant
            base == v0.len(),
            total == 4 * per,
            1 <= per <= QUADRANT_SEGMENTS + 1,
            rect.within(2 * COORD_LIMIT),
            0 <= r <= rect.spec_width() / 2,
            r <= rect.spec_height() / 2,
            base + total <= usize::MAX,
            0 <= i <= total,
            vs@.len() == base + i,
            vs@.subrange(0, base as int) == v0,
            forall|t: int|
                base <= t < base + i ==> #[trigger] vs@[t] == (Vertex {
                    pos: outline_point(*rect, r as int, per as int, t - base),
                    color,
                }),
            forall|t: int| base <= t < base + i ==> rect.spec_contains(#[trigger] vs@[t].pos),
        decreases total - i,
    {
        let c = i / per;
        let j = i % per;
        assert(c < 4) by (nonlinear_arith)
            requires
                c == i / per,
                i < 4 * per,
                per >= 1,
        ;
        let p = corner_point(rect, r, c, j);
        vs.push(Vertex { pos: p, color });
        assert(vs@.subrange(0, base as int) =~= v0);
        i = i + 1;
    }
}

/// Appends a fan of triangles over an outline of `n` points.
fn push_fan(is: &mut Vec<u32>, n: usize)
    requires
        old(is)@.len() == 0,
        3 <= n <= 1000,
    ensures
        final(is)@.len() == 3 * (n - 2),
        forall|t: int| 0 <= t < final(is)@.len() ==> #[trigger] final(is)@[t] == fan_index(t),
        forall|t: int| 0 <= t < final(is)@.len() ==> (#[trigger] final(is)@[t] as int) < n,
{
    let mut k: usize = 0;
    while k < n - 2
        invariant
            3 <= n <= 1000,
            k <= n - 2,
            is@.len() == 3 * k,
            forall|t: int| 0 <= t < is@.len() ==> #[trigger] is@[t] == fan_index(t),
            forall|t: int| 0 <= t < is@.len() ==> (#[trigger] is@[t] as int) < n,
        decreases n - 2 - k,
    {
        is.push(0);
        is.push((k + 1) as u32);
        is.push((k + 2) as u32);
        assert(fan_index(3 * k as int) == 0);
        assert(fan_index(3 * k + 1) == k + 1);
        assert(fan_index(3 * k + 2) == k + 2);
        k = k + 1;
    }
}

/// Appends the band of triangles between an inner outline at `0..n` and an
/// outer one at `n..2 * n`.
fn push_band(is: &mut Vec<u32>, n: usize)
    requires
        3 <= n <= 1000,
        old(is)@.len() <= 3000,
    ensures
        final(is)@.len() == old(is)@.len() + 6 * n,
        final(is)@.subrange(0, old(is)@.len() as int) == old(is)@,
        forall|t: int|
            old(is)@.len() <= t < final(is)@.len() ==> #[trigger] final(is)@[t] == band_index(
                n as int,
                t - old(is)@.len(),
            ),
        forall|t: int|
            old(is)@.len() <= t < final(is)@.len() ==> (#[trigger] final(is)@[t] as int) < 2 * n,
{
    let ghost v0 = is@;
    let base = is.len();
    let mut i: usize = 0;
    while i < n
        invariant
            base == v0.len(),
            base <= 3000,
            3 <= n <= 1000,
            i <= n,
            is@.len() == base + 6 * i,
            is@.subrange(0, base as int) == v0,
            forall|t: int|
                base <= t < is@.len() ==> #[trigger] is@[t] == band_index(n as int, t - base),
            forall|t: int| base <= t < is@.len() ==> (#[trigger] is@[t] as int) < 2 * n,
        decreases n - i,
    {
        let j: usize = if i + 1 == n { 0 } else { i + 1 };
        is.push(i as u32);
        is.push(j as u32);
        is.push((n + j) as u32);
        is.push(i as u32);
        is.push((n + j) as u32);
        is.push((n + i) as u32);
        let ghost q = 6 * i as int;
        assert(band_index(n as int, q) == i);
        assert(band_index(n as int, q + 1) == j);
        assert(band_index(n as int, q + 2) == n + j);
        assert(band_index(n as int, q + 3) == i);
        assert(band_index(n as int, q + 4) == n + j);
        assert(band_index(n as int, q + 5) == n + i);
        assert(is@.subrange(0, base as int) =~= v0);
        i = i + 1;
    }
}

/// The vertices and indices of a fill without feather: a fan over the
/// outline of `rect` rounded by `r`.
fn plain_fill(rect: &Rect, r: i64, per: usize, fill: Color32) -> (m: Mesh)
    requires
        rect.within(2 * COORD_LIMIT),
        !rect.spec_is_negative(),
        r == clamp_radius(*rect, r as int),
        0 <= r,
        per == points_per_corner(r as int),
    ensures
        ({
            let n = 4 * per;
            &&& m.vertices@.len() == n
            &&& outline_at(m.vertices@, 0, *rect, r as int, per as int, fill)
            &&& m.indices@.len() == 3 * (n - 2)
            &&& forall|t: int| 0 <= t < m.indices@.len() ==> #[trigger] m.indices@[t] == fan_index(t)
        }),
        m.wf(),
{
    let mut vertices: Vec<Vertex> = Vec::new();
    let mut indices: Vec<u32> = Vec::new();
    push_outline(&mut vertices, rect, r, per, fill);
    push_fan(&mut indices, 4 * per);
    assert(vertices@.subrange(0, 0) =~= Seq::<Vertex>::empty());
    Mesh { indices, vertices }
}

/// The vertices and indices of a feathered fill: a fan over the outline moved
/// inward by `feather`, and a band joining it to the transparent outline.
#[verifier::spinoff_prover]
#[verifier::rlimit(40)]
fn feathered_fill(rect: &Rect, r: i64, per: usize, fill: Color32, feather: i64) -> (m: Mesh)
    requires
        rect.within(2 * COORD_LIMIT),
        !rect.spec_is_negative(),
        r == clamp_radius(*rect, r as int),
        0 <= r,
        per == points_per_corner(r as int),
        0 < feather,
    ensures
        ({
            let n = 4 * per;
            &&& m.vertices@.len() == 2 * n
            &&& outline_at(
                m.vertices@,
                0,
                spec_shrink(*rect, feather as int),
                inner_radius(*rect, r as int, feather as int),
                per as int,
                fill,
            )
            &&& outline_at(m.vertices@, n as int, *rect, r as int, per as int, spec_transparent())
            &&& m.indices@.len() == 3 * (n - 2) + 6 * n
            &&& forall|t: int| 0 <= t < 3 * (n - 2) ==> #[trigger] m.indices@[t] == fan_index(t)
            &&& forall|t: int|
                3 * (n - 2) <= t < m.indices@.len() ==> #[trigger] m.indices@[t] == band_index(
                    n as int,
                    t - 3 * (n - 2),
                )
        }),
        m.wf(),
{
    let n = 4 * per;
    let mut vertices: Vec<Vertex> = Vec::new();
    let mut indices: Vec<u32> = Vec::new();
    let inner = shrink(rect, feather);
    let ir = clamped_radius(&inner, if feather < r { r - feather } else { 0 });
    push_outline(&mut vertices, &inner, ir, per, fill);
    assert(vertices@.subrange(0, 0) =~= Seq::<Vertex>::empty());
    let ghost v1 = vertices@;
    push_outline(&mut vertices, rect, r, per, Color32::transparent());
    push_fan(&mut indices, n);
    let ghost i1 = indices@;
    push_band(&mut indices, n);
    assert forall|t: int| 0 <= t < n implies #[trigger] vertices@[t] == v1[t] by {
        assert(vertices@.subrange(0, n as int)[t] == v1[t]);
    }
    assert(outline_at(vertices@, 0, inner, ir as int, per as int, fill));
    assert forall|t: int| 0 <= t < 3 * (n - 2) implies #[trigger] indices@[t] == i1[t] by {
        assert(indices@.subrange(0, 3 * (n - 2))[t] == i1[t]);
    }
    assert forall|t: int| 0 <= t < indices@.len() implies (#[trigger] indices@[t] as int)
        < vertices@.len() by {
        if t < 3 * (n - 2) {
            assert(indices@[t] == i1[t]);
        }
    }
    Mesh { indices, vertices }
}

/// Fills `rect` with corners rounded by `radius` (clamped to half of either
/// side) in `fill`. With a positive `feather` the color fades to transparent
/// over a band of that width inside the border.
pub fn fill_rounded_rect(rect: Rect, radius: i64, fill: Color32, feather: i64) -> (m: Mesh)
    requires
        rect.within(2 * COORD_LIMIT),
        0 <= radius,
        0 <= feather,
    ensures
        is_rounded_rect_mesh(m, rect, radius as int, fill, feather as int),
        m.wf(),
{
    if rect.is_negative() {
        return Mesh::new();
    }
    let r = clamped_radius(&rect, radius);
    proof {
        lemma_clamp_radius(rect, r as int);
    }
    let per: usize = if r == 0 { 1 } else { QUADRANT_SEGMENTS + 1 };
    if feather == 0 {
        plain_fill(&rect, r, per, fill)
    } else {
        feathered_fill(&rect, r, per, fill, feather)
    }
}

proof fn lemma_clamp_radius(rect: Rect, r: int)
    requires
        !rect.spec_is_negative(),
        0 <= r,
    ensures
        0 <= clamp_radius(rect, r) <= r,
        clamp_radius(rect, r) <= rect.spec_width() / 2,
        clamp_radius(rect, r) <= rect.spec_height() / 2,
{
}

proof fn lemma_shrink(rect: Rect, f: int)
    requires
        rect.within(2 * COORD_LIMIT),
        !rect.spec_is_negative(),
        0 <= f,
    ensures
        spec_shrink(rect, f).within(2 * COORD_LIMIT),
        !spec_shrink(rect, f).spec_is_negative(),
        rect.min.x <= spec_shrink(rect, f).min.x,
        rect.min.y <= spec_shrink(rect, f).min.y,
        spec_shrink(rect, f).max.x <= rect.max.x,
        spec_shrink(rect, f).max.y <= rect.max.y,
{
}

proof fn lemma_outline_point_in(rect: Rect, r: int, per: int, i: int)
    requires
        rect.within(2 * COORD_LIMIT),
        0 <= r <= rect.spec_width() / 2,
        r <= rect.spec_height() / 2,
        1 <= per <= QUADRANT_SEGMENTS + 1,
        0 <= i < 4 * per,
    ensures
        rect.spec_contains(outline_point(rect, r, per, i)),
{
    let c = i / per;
    let j = i % per;
    assert(0 <= c < 4 && 0 <= j < per) by (nonlinear_arith)
        requires
            c == i / per,
            j == i % per,
            0 <= i < 4 * per,
            per >= 1,
    ;
    lemma_arc_bounds(r, j);
    lemma_arc_bounds(r, QUADRANT_SEGMENTS - j);
}

/// Point `i` of an outline with `per` points to a corner lies on corner `c`
/// at step `j`.
proof fn lemma_outline_index(per: int, c: int, j: int)
    requires
        per == 1 || per == QUADRANT_SEGMENTS + 1,
        0 <= c < 4,
        0 <= j < per,
    ensures
        (c * per + j) / per == c,
        (c * per + j) % per == j,
{
}

/// Every vertex of a rounded-rect mesh lies in the rect, and each side of the
/// rect is reached: the mesh's bounding box is the rect, whatever the radius
/// and the feather.
pub proof fn lemma_rounded_rect_mesh_bounds(
    m: Mesh,
    rect: Rect,
    radius: int,
    fill: Color32,
    feather: int,
)
    requires
        rect.within(2 * COORD_LIMIT),
        !rect.spec_is_negative(),
        0 <= radius,
        0 <= feather,
        is_rounded_rect_mesh(m, rect, radius, fill, feather),
    ensures
        bounds_are(m.vertices@, rect),
{
    let vs = m.vertices@;
    let r = clamp_radius(rect, radius);
    let per = points_per_corner(r);
    let n = 4 * per;
    let off = if feather == 0 { 0 } else { n };
    let color = if feather == 0 { fill } else { spec_transparent() };
    lemma_clamp_radius(rect, radius);
    assert forall|t: int| 0 <= t < vs.len() implies rect.spec_contains(#[trigger] vs[t].pos) by {
        if feather != 0 && t < n {
            let inner = spec_shrink(rect, feather);
            lemma_shrink(rect, feather);
            let ir = inner_radius(rect, r, feather);
            lemma_clamp_radius(inner, if feather < r { r - feather } else { 0 });
            lemma_outline_point_in(inner, ir, per, t);
        } else {
            lemma_outline_point_in(rect, r, per, t - off);
        }
    }
    let k = QUADRANT_SEGMENTS as int;
    lemma_arc_bounds(r, 0);
    lemma_arc_bounds(r, k);
    lemma_arc_bounds(r, k + 1 - per);
    lemma_outline_index(per, 0, 0);
    lemma_outline_index(per, 0, per - 1);
    lemma_outline_index(per, 2, 0);
    lemma_outline_index(per, 2, per - 1);
    assert(vs[off + 0].pos.x == rect.max.x);
    assert(vs[off + per - 1].pos.y == rect.max.y);
    assert(vs[off + 2 * per].pos.x == rect.min.x);
    assert(vs[off + 3 * per - 1].pos.y == rect.min.y);
}

/// A rounded-rect mesh is fixed by its arguments: two meshes that both fill
/// the same rect with the same radius, color and feather are equal.
pub proof fn lemma_rounded_rect_mesh_unique(
    m1: Mesh,
    m2: Mesh,
    rect: Rect,
    radius: int,
    fill: Color32,
    feather: int,
)
    requires
        is_rounded_rect_mesh(m1, rect, radius, fill, feather),
        is_rounded_rect_mesh(m2, rect, radius, fill, feather),
    ensures
        m1.vertices@ == m2.vertices@,
        m1.indices@ == m2.indices@,
{
    let (v1, v2, i1, i2) = (m1.vertices@, m2.vertices@, m1.indices@, m2.indices@);
    if !rect.spec_is_negative() {
        let r = clamp_radius(rect, radius);
        let per = points_per_corner(r);
        let n = 4 * per;
        assert forall|t: int| 0 <= t < v1.len() implies v1[t] == v2[t] by {
            if feather != 0 && t >= n {
                assert(v1[t] == v2[t]);
            }
        }
        assert forall|t: int| 0 <= t < i1.len() implies i1[t] == i2[t] by {
            if feather != 0 && t >= 3 * (n - 2) {
                assert(i1[t] == i2[t]);
            }
        }
    }
    assert(v1 =~= v2);
    assert(i1 =~= i2);
}

/// With a positive feather on a rect at least two units wide and high, the
/// mesh's edge is fully transparent: every vertex on the border of the rect
/// is transparent, every vertex has either the fill color or none, and the
/// first vertex has the fill color.
pub proof fn lemma_rounded_rect_mesh_edge(
    m: Mesh,
    rect: Rect,
    radius: int,
    fill: Color32,
    feather: int,
)
    requires
        rect.within(2 * COORD_LIMIT),
        rect.spec_width() >= 2,
        rect.spec_height() >= 2,
        0 <= radius,
        0 < feather,
        is_rounded_rect_mesh(m, rect, radius, fill, feather),
    ensures
        forall|t: int|
            0 <= t < m.vertices@.len() && rect.spec_on_border(#[trigger] m.vertices@[t].pos)
                ==> m.vertices@[t].color == spec_transparent(),
        forall|t: int|
            0 <= t < m.vertices@.len() ==> (#[trigger] m.vertices@[t]).color == fill
                || m.vertices@[t].color == spec_transparent(),
        m.vertices@.len() > 0 && m.vertices@[0].color == fill,
{
    let vs = m.vertices@;
    let r = clamp_radius(rect, radius);
    let per = points_per_corner(r);
    let n = 4 * per;
    let inner = spec_shrink(rect, feather);
    lemma_clamp_radius(rect, radius);
    lemma_shrink(rect, feather);
    lemma_clamp_radius(inner, if feather < r { r - feather } else { 0 });
    assert(rect.min.x < inner.min.x && inner.max.x < rect.max.x);
    assert(rect.min.y < inner.min.y && inner.max.y < rect.max.y);
    assert forall|t: int|
        0 <= t < vs.len() && rect.spec_on_border(#[trigger] vs[t].pos) implies vs[t].color
        == spec_transparent() by {
        if t < n {
            lemma_outline_point_in(inner, inner_radius(rect, r, feather), per, t);
        }
    }
    assert forall|t: int| 0 <= t < vs.len() implies (#[trigger] vs[t]).color == fill
        || vs[t].color == spec_transparent() by {
        if t < n {
        } else {
        }
    }
    assert(vs[0].color == fill);
}

} // verus!
