//! The color and fuzziness of a soft rectangular shadow, and its mesh.
use vstd::prelude::*;

use crate::color::{spec_transparent, Color32};
use crate::geometry::{Rect, COORD_LIMIT};
use crate::mesh::{bounds_are, Mesh};
use crate::tessellator::{
    fill_rounded_rect, is_rounded_rect_mesh, lemma_rounded_rect_mesh_bounds,
    lemma_rounded_rect_mesh_edge, lemma_rounded_rect_mesh_unique,
};

verus! {

/// The color and fuzziness of a fuzzy shape.
/// Can be used for a rectangular shadow with a soft penumbra.
#[derive(Clone, Copy, Debug, PartialEq, Eq, Structural)]
pub struct Shadow {
    /// The shadow extends this much outside the rect.
    /// The size of the fuzzy penumbra. Zero or less gives a sharp edge.
    pub extrusion: i32,
    /// Color of the opaque center of the shadow.
    pub color: Color32,
}

impl Default for Shadow {
    fn default() -> (s: Shadow)
        ensures
            s.extrusion == 0,
            s.color == spec_transparent(),
    {
        Shadow { extrusion: 0, color: Color32::transparent() }
    }
}

impl Shadow {
    /// Width of the penumbra: the extrusion, or zero where it is not positive.
    pub open spec fn spec_feather(self) -> int {
        if self.extrusion > 0 { self.extrusion as int } else { 0 }
    }

    /// How far the shadow's outline lies outside the rect: half the penumbra,
    /// rounded up, so that the rect's own edge sits in the middle of the
    /// penumbra (half a unit nearer its inner side for an odd width), and a
    /// positive penumbra always leaves its inner outline strictly inside.
    pub open spec fn spec_half(self) -> int {
        (self.spec_feather() + 1) / 2
    }

    /// The rect grown by half the penumbra, rounded up, on every side.
    pub open spec fn spec_expanded_rect(self, rect: Rect) -> Rect {
        rect.spec_expand(self.spec_half())
    }

    /// The corner radius grown by half the penumbra, rounded up.
    pub open spec fn spec_expanded_radius(self, corner_radius: int) -> int {
        corner_radius + self.spec_half()
    }

    /// `m` is this shadow's mesh for `rect` and `corner_radius`: the expanded
    /// rect with the expanded radius, filled with the shadow's color, fading
    /// out over a band as wide as the extrusion.
    pub open spec fn is_mesh_of(self, m: Mesh, rect: Rect, corner_radius: int) -> bool {
        &&& is_rounded_rect_mesh(
            m,
            self.spec_expanded_rect(rect),
            self.spec_expanded_radius(corner_radius),
            self.color,
            self.spec_feather(),
        )
        &&& m.wf()
    }

    /// Tooltips, menus, ...
    pub fn small_dark() -> (s: Shadow)
        ensures
            s == Shadow::spec_small_dark(),
    {
        Shadow { extrusion: 16, color: Color32::from_black_alpha(96) }
    }

    /// Tooltips, menus, ...
    pub fn small_light() -> (s: Shadow)
        ensures
            s == Shadow::spec_small_light(),
    {
        Shadow { extrusion: 16, color: Color32::from_black_alpha(32) }
    }

    /// Subtle and nice on dark backgrounds
    pub fn big_dark() -> (s: Shadow)
        ensures
            s == Shadow::spec_big_dark(),
    {
        Shadow { extrusion: 32, color: Color32::from_black_alpha(96) }
    }

    /// Subtle and nice on white backgrounds
    pub fn big_light() -> (s: Shadow)
        ensures
            s == Shadow::spec_big_light(),
    {
        Shadow { extrusion: 32, color: Color32::from_black_alpha(40) }
    }

    /// Extrusion 16, black at opacity 96.
    pub open spec fn spec_small_dark() -> Shadow {
        Shadow { extrusion: 16, color: Color32::spec_black_alpha(96) }
    }

    /// Extrusion 16, black at opacity 32.
    pub open spec fn spec_small_light() -> Shadow {
        Shadow { extrusion: 16, color: Color32::spec_black_alpha(32) }
    }

    /// Extrusion 32, black at opacity 96.
    pub open spec fn spec_big_dark() -> Shadow {
        Shadow { extrusion: 32, color: Color32::spec_black_alpha(96) }
    }

    /// Extrusion 32, black at opacity 40.
    pub open spec fn spec_big_light() -> Shadow {
        Shadow { extrusion: 32, color: Color32::spec_black_alpha(40) }
    }

    /// The rect grown by half the penumbra, rounded up, on every side.
    pub fn expanded_rect(&self, rect: Rect) -> (r: Rect)
        requires
            rect.in_range(),
        ensures
            r == self.spec_expanded_rect(rect),
            r.within(2 * COORD_LIMIT),
    {
        rect.expand(self.half_extrusion())
    }

    /// Width of the penumbra: the extrusion, or zero where it is not positive.
    pub fn feather(&self) -> (f: i64)
        ensures
            f == self.spec_feather(),
    {
        if self.extrusion > 0 { self.extrusion as i64 } else { 0 }
    }

    /// Half the penumbra, rounded up.
    pub fn half_extrusion(&self) -> (h: i64)
        ensures
            h == self.spec_half(),
            0 <= h <= COORD_LIMIT,
    {
        (self.feather() + 1) / 2
    }

    /// The corner radius grown by half the penumbra, rounded up.
    pub fn expanded_radius(&self, corner_radius: u32) -> (r: i64)
        ensures
            r == self.spec_expanded_radius(corner_radius as int),
    {
        corner_radius as i64 + self.half_extrusion()
    }

    /// The shadow of `rect` with corners rounded by `corner_radius`: the rect
    /// grown by half the penumbra (rounded up), its radius grown as much,
    /// filled with the shadow's color and fading to transparent over a band as
    /// wide as the penumbra inside that outline. An extrusion of zero or less
    /// gives the plain filled rect. No culling is done.
    pub fn tessellate(&self, rect: Rect, corner_radius: u32) -> (m: Mesh)
        requires
            rect.in_range(),
        ensures
            self.is_mesh_of(m, rect, corner_radius as int),
            self.extrusion <= 0 ==> is_rounded_rect_mesh(m, rect, corner_radius as int, self.color, 0),
    {
        let expanded = self.expanded_rect(rect);
        let radius = self.expanded_radius(corner_radius);
        let m = fill_rounded_rect(expanded, radius, self.color, self.feather());
        proof {
            if self.extrusion <= 0 {
                lemma_no_extrusion_is_plain_fill(*self, rect, corner_radius as int, m);
            }
        }
        m
    }
}

/// A shadow of a rect that is not negative has at least one triangle, and
/// every shadow mesh is well formed (possibly empty) whatever the rect.
pub proof fn lemma_shadow_has_triangles(s: Shadow, rect: Rect, corner_radius: int, m: Mesh)
    requires
        rect.in_range(),
        0 <= corner_radius,
        s.is_mesh_of(m, rect, corner_radius),
    ensures
        m.wf(),
        !rect.spec_is_negative() ==> m.spec_triangle_count() > 0,
{
}

/// The shadow's bounding box is exactly the rect grown by half the penumbra (rounded up)
/// on every side, whatever the corner radius.
pub proof fn lemma_shadow_bounds(s: Shadow, rect: Rect, corner_radius: int, m: Mesh)
    requires
        rect.in_range(),
        0 <= corner_radius,
        !s.spec_expanded_rect(rect).spec_is_negative(),
        s.is_mesh_of(m, rect, corner_radius),
    ensures
        bounds_are(m.vertices@, s.spec_expanded_rect(rect)),
{
    lemma_rounded_rect_mesh_bounds(
        m,
        s.spec_expanded_rect(rect),
        s.spec_expanded_radius(corner_radius),
        s.color,
        s.spec_feather(),
    );
}

/// Without a positive extrusion the shadow is the plain filled rounded rect,
/// with no feather band: the rect itself at the given radius, in the shadow's
/// color.
pub proof fn lemma_no_extrusion_is_plain_fill(s: Shadow, rect: Rect, corner_radius: int, m: Mesh)
    requires
        rect.in_range(),
        s.extrusion <= 0,
        s.is_mesh_of(m, rect, corner_radius),
    ensures
        is_rounded_rect_mesh(m, rect, corner_radius, s.color, 0),
{
    assert(s.spec_expanded_rect(rect) == rect);
}

/// Tessellating the same shadow, rect and radius twice gives the same
/// vertices and the same indices.
pub proof fn lemma_shadow_deterministic(
    s: Shadow,
    rect: Rect,
    corner_radius: int,
    m1: Mesh,
    m2: Mesh,
)
    requires
        s.is_mesh_of(m1, rect, corner_radius),
        s.is_mesh_of(m2, rect, corner_radius),
    ensures
        m1.vertices@ == m2.vertices@,
        m1.indices@ == m2.indices@,
{
    lemma_rounded_rect_mesh_unique(
        m1,
        m2,
        s.spec_expanded_rect(rect),
        s.spec_expanded_radius(corner_radius),
        s.color,
        s.spec_feather(),
    );
}

/// Every preset casts a visible shadow: a positive extrusion, 16 for the
/// small ones and 32 for the big ones, and a color that is not transparent.
pub proof fn lemma_presets_visible(sd: Shadow, sl: Shadow, bd: Shadow, bl: Shadow)
    requires
        sd == Shadow::spec_small_dark(),
        sl == Shadow::spec_small_light(),
        bd == Shadow::spec_big_dark(),
        bl == Shadow::spec_big_light(),
    ensures
        sd.extrusion == 16 && sl.extrusion == 16,
        bd.extrusion == 32 && bl.extrusion == 32,
        sd.color.a > 0 && sl.color.a > 0 && bd.color.a > 0 && bl.color.a > 0,
{
}

/// With a positive extrusion the shadow fades out to a fully transparent
/// edge: every vertex on the border of the grown rect is transparent, every
/// vertex has either the shadow's color or none, and the opaque core is there.
pub proof fn lemma_shadow_edge_transparent(s: Shadow, rect: Rect, corner_radius: int, m: Mesh)
    requires
        rect.in_range(),
        0 <= corner_radius,
        s.extrusion > 0,
        !rect.spec_is_negative(),
        s.is_mesh_of(m, rect, corner_radius),
    ensures
        forall|t: int|
            0 <= t < m.vertices@.len() && s.spec_expanded_rect(rect).spec_on_border(
                #[trigger] m.vertices@[t].pos,
            ) ==> m.vertices@[t].color == spec_transparent(),
        forall|t: int|
            0 <= t < m.vertices@.len() ==> (#[trigger] m.vertices@[t]).color == s.color
                || m.vertices@[t].color == spec_transparent(),
        exists|t: int| 0 <= t < m.vertices@.len() && (#[trigger] m.vertices@[t]).color == s.color,
{
    lemma_rounded_rect_mesh_edge(
        m,
        s.spec_expanded_rect(rect),
        s.spec_expanded_radius(corner_radius),
        s.color,
        s.spec_feather(),
    );
    assert(m.vertices@[0].color == s.color);
}

} // verus!
