use epaint_shadow::color::Color32;
use epaint_shadow::geometry::{Pos2, Rect};
use epaint_shadow::mesh::Mesh;
use epaint_shadow::shadow::Shadow;
use epaint_shadow::tessellator::fill_rounded_rect;

fn rect(x0: i64, y0: i64, x1: i64, y1: i64) -> Rect {
    Rect::from_min_max(Pos2 { x: x0, y: y0 }, Pos2 { x: x1, y: y1 })
}

fn bounding_box(m: &Mesh) -> Rect {
    let first = m.vertices[0].pos;
    let mut b = Rect::from_min_max(first, first);
    for v in &m.vertices {
        b.min.x = b.min.x.min(v.pos.x);
        b.min.y = b.min.y.min(v.pos.y);
        b.max.x = b.max.x.max(v.pos.x);
        b.max.y = b.max.y.max(v.pos.y);
    }
    b
}

fn assert_well_formed(m: &Mesh) {
    assert_eq!(m.indices.len() % 3, 0);
    for &i in &m.indices {
        assert!((i as usize) < m.vertices.len());
    }
}

#[test]
fn presets_have_fixed_extrusion_and_visible_color() {
    let sd = Shadow::small_dark();
    let sl = Shadow::small_light();
    let bd = Shadow::big_dark();
    let bl = Shadow::big_light();
    assert_eq!(sd.extrusion, 16);
    assert_eq!(sl.extrusion, 16);
    assert_eq!(bd.extrusion, 32);
    assert_eq!(bl.extrusion, 32);
    assert_eq!(sd.color, Color32::from_black_alpha(96));
    assert_eq!(sl.color, Color32::from_black_alpha(32));
    assert_eq!(bd.color, Color32::from_black_alpha(96));
    assert_eq!(bl.color, Color32::from_black_alpha(40));
    for s in [sd, sl, bd, bl] {
        assert!(s.extrusion > 0);
        assert!(s.color.a > 0);
    }
}

#[test]
fn default_shadow_is_flat_and_transparent() {
    let s = Shadow::default();
    assert_eq!(s.extrusion, 0);
    assert_eq!(s.color, Color32::transparent());
    assert_eq!(s.color, Color32 { r: 0, g: 0, b: 0, a: 0 });
}

#[test]
fn small_dark_scenario_expands_rect_and_radius() {
    let s = Shadow { extrusion: 16, color: Color32::from_black_alpha(96) };
    let r = rect(0, 0, 100, 50);
    assert_eq!(s.expanded_rect(r), rect(-8, -8, 108, 58));
    assert_eq!(s.expanded_radius(4), 12);
    let m = s.tessellate(r, 4);
    assert_well_formed(&m);
    assert_eq!(bounding_box(&m), rect(-8, -8, 108, 58));
}

#[test]
fn feathered_mesh_has_fan_and_band() {
    let s = Shadow { extrusion: 16, color: Color32::from_black_alpha(96) };
    let m = s.tessellate(rect(0, 0, 100, 50), 4);
    // 9 points per rounded corner, an inner and an outer outline
    assert_eq!(m.vertices.len(), 72);
    assert_eq!(m.triangle_count(), 34 + 72);
    for v in &m.vertices[..36] {
        assert_eq!(v.color, Color32::from_black_alpha(96));
        assert!(v.pos.x >= 8 && v.pos.x <= 92 && v.pos.y >= 8 && v.pos.y <= 42);
    }
    for v in &m.vertices[36..] {
        assert_eq!(v.color, Color32::transparent());
    }
    assert_eq!(m.vertices[36].pos, Pos2 { x: 108, y: 46 });
    assert_eq!(m.vertices[44].pos, Pos2 { x: 96, y: 58 });
}

#[test]
fn sharp_square_without_extrusion_is_two_triangles() {
    let s = Shadow { extrusion: 0, color: Color32::from_black_alpha(96) };
    let m = s.tessellate(rect(0, 0, 10, 10), 0);
    assert_eq!(m.triangle_count(), 2);
    assert_eq!(m.indices, vec![0, 1, 2, 0, 2, 3]);
    let positions: Vec<Pos2> = m.vertices.iter().map(|v| v.pos).collect();
    assert_eq!(
        positions,
        vec![
            Pos2 { x: 10, y: 10 },
            Pos2 { x: 0, y: 10 },
            Pos2 { x: 0, y: 0 },
            Pos2 { x: 10, y: 0 },
        ]
    );
    assert!(m.vertices.iter().all(|v| v.color == Color32::from_black_alpha(96)));
    assert_eq!(bounding_box(&m), rect(0, 0, 10, 10));
}

#[test]
fn no_extrusion_equals_plain_rounded_fill() {
    let color = Color32::from_black_alpha(40);
    let s = Shadow { extrusion: 0, color };
    let r = rect(3, -7, 40, 25);
    let m = s.tessellate(r, 5);
    assert_eq!(m, fill_rounded_rect(r, 5, color, 0));
    assert_eq!(m.vertices.len(), 36);
    assert_eq!(m.triangle_count(), 34);
}

#[test]
fn tessellate_is_deterministic() {
    let s = Shadow::big_light();
    let r = rect(-20, 5, 70, 33);
    assert_eq!(s.tessellate(r, 6), s.tessellate(r, 6));
}

#[test]
fn positive_area_gives_triangles_for_any_extrusion() {
    for e in [-5i32, 0, 1, 2, 15, 16, 32, 1000] {
        let s = Shadow { extrusion: e, color: Color32::from_black_alpha(96) };
        for cr in [0u32, 3, 100] {
            let m = s.tessellate(rect(0, 0, 7, 5), cr);
            assert!(m.triangle_count() > 0);
            assert_well_formed(&m);
            let h = if e > 0 { (e as i64 + 1) / 2 } else { 0 };
            assert_eq!(bounding_box(&m), rect(-h, -h, 7 + h, 5 + h));
        }
    }
}

#[test]
fn zero_area_rect_is_well_formed() {
    let s = Shadow { extrusion: 0, color: Color32::from_black_alpha(96) };
    let m = s.tessellate(rect(4, 4, 4, 4), 2);
    assert_well_formed(&m);
    let m = Shadow::small_dark().tessellate(rect(4, 4, 4, 4), 2);
    assert_well_formed(&m);
    assert_eq!(bounding_box(&m), rect(-4, -4, 12, 12));
}

#[test]
fn negative_rect_gives_empty_mesh() {
    let s = Shadow { extrusion: 2, color: Color32::from_black_alpha(96) };
    let m = s.tessellate(rect(10, 0, 0, 10), 0);
    assert!(m.is_empty());
    assert_eq!(m.triangle_count(), 0);
}

#[test]
fn oversized_radius_is_clamped_to_half_side() {
    let color = Color32::from_black_alpha(7);
    let m = fill_rounded_rect(rect(0, 0, 20, 10), 1000, color, 0);
    assert_eq!(m, fill_rounded_rect(rect(0, 0, 20, 10), 5, color, 0));
    assert_eq!(bounding_box(&m), rect(0, 0, 20, 10));
    // the rightmost point of the bottom-right corner, radius 5
    assert_eq!(m.vertices[0].pos, Pos2 { x: 20, y: 5 });
    // the middle of that corner: 5 * 724 / 1024 == 3
    assert_eq!(m.vertices[4].pos, Pos2 { x: 18, y: 8 });
}

#[test]
fn wide_feather_collapses_inner_outline_to_the_middle() {
    let color = Color32::from_black_alpha(200);
    let m = fill_rounded_rect(rect(0, 0, 10, 10), 0, color, 50);
    assert_eq!(m.vertices.len(), 8);
    for v in &m.vertices[..4] {
        assert_eq!(v.pos, Pos2 { x: 5, y: 5 });
        assert_eq!(v.color, color);
    }
    assert_eq!(m.indices.len(), 6 + 24);
    assert_eq!(&m.indices[6..12], &[0, 1, 5, 0, 5, 4]);
    assert_eq!(&m.indices[24..30], &[3, 0, 4, 3, 4, 7]);
}

#[test]
fn expand_and_contains() {
    let r = rect(0, 0, 4, 2);
    assert_eq!(r.expand(3), rect(-3, -3, 7, 5));
    assert!(r.contains(Pos2 { x: 4, y: 2 }));
    assert!(!r.contains(Pos2 { x: 5, y: 2 }));
    assert!(!r.is_negative());
    assert!(rect(1, 0, 0, 0).is_negative());
    assert!(Mesh::new().is_empty());
    assert!(Mesh::default().is_empty());
}

fn on_border(r: Rect, p: Pos2) -> bool {
    r.contains(p) && (p.x == r.min.x || p.x == r.max.x || p.y == r.min.y || p.y == r.max.y)
}

#[test]
fn unit_extrusion_on_unit_square_has_transparent_edge() {
    let color = Color32::from_black_alpha(96);
    let s = Shadow { extrusion: 1, color };
    let r = rect(0, 0, 1, 1);
    assert_eq!(s.expanded_rect(r), rect(-1, -1, 2, 2));
    let m = s.tessellate(r, 0);
    assert_well_formed(&m);
    let grown = rect(-1, -1, 2, 2);
    assert_eq!(bounding_box(&m), grown);
    assert!(m.vertices.iter().any(|v| v.color == color));
    for v in &m.vertices {
        assert!(v.color == color || v.color == Color32::transparent());
        if on_border(grown, v.pos) {
            assert_eq!(v.color.a, 0);
        }
    }
}

#[test]
fn every_edge_vertex_is_transparent() {
    let color = Color32::from_black_alpha(32);
    for e in [1i32, 2, 3, 16, 33] {
        let s = Shadow { extrusion: e, color };
        for r in [rect(0, 0, 1, 1), rect(0, 0, 0, 0), rect(-3, 2, 40, 3), rect(0, 0, 100, 50)] {
            for cr in [0u32, 1, 4, 60] {
                let grown = s.expanded_rect(r);
                let m = s.tessellate(r, cr);
                assert_eq!(bounding_box(&m), grown);
                for v in &m.vertices {
                    assert!(v.color == color || v.color == Color32::transparent());
                    if on_border(grown, v.pos) {
                        assert_eq!(v.color, Color32::transparent());
                    }
                }
            }
        }
    }
}

#[test]
fn odd_extrusion_rounds_half_up() {
    let s = Shadow { extrusion: 15, color: Color32::from_black_alpha(96) };
    assert_eq!(s.half_extrusion(), 8);
    assert_eq!(s.feather(), 15);
    assert_eq!(s.expanded_rect(rect(0, 0, 10, 10)), rect(-8, -8, 18, 18));
    assert_eq!(s.expanded_radius(2), 10);
}

#[test]
fn negative_extrusion_is_plain_fill() {
    let color = Color32::from_black_alpha(96);
    let r = rect(0, 0, 30, 20);
    for e in [-1i32, -16, i32::MIN] {
        let s = Shadow { extrusion: e, color };
        assert_eq!(s.feather(), 0);
        assert_eq!(s.expanded_rect(r), r);
        assert_eq!(s.tessellate(r, 4), fill_rounded_rect(r, 4, color, 0));
    }
}
