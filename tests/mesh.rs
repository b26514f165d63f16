use bevy_mod_meshtext::{
    assemble_mesh, bounding_box, DepthLayout, HorizontalLayout, MeshText, OutlineVertex,
    Position, VerticalLayout, HALF_EM, UNITS_PER_EM,
};

const EM: i32 = 65536;

fn v(x: i32, y: i32, z: i32) -> OutlineVertex {
    OutlineVertex { x, y, z }
}

/// Two triangles covering the box from (0, 0) to (w, one em).
fn block(w: i32, z: i32) -> Vec<OutlineVertex> {
    vec![
        v(0, 0, z),
        v(w, 0, z),
        v(w, EM, z),
        v(0, 0, z),
        v(w, EM, z),
        v(0, EM, z),
    ]
}

#[test]
fn positions_are_scaled_and_offset() {
    let lines = vec![vec![v(1, 2, 3), v(4, 5, 6), v(-1, -2, -3)]];
    let mesh = assemble_mesh(
        &lines,
        10,
        20,
        &VerticalLayout::Bottom,
        &HorizontalLayout::Left,
        &DepthLayout::Centered,
    );
    assert_eq!(
        mesh.positions,
        vec![
            Position { x: 10, y: 20, z: 60 },
            Position { x: 40, y: 50, z: 120 },
            Position { x: -10, y: -20, z: -60 },
        ]
    );
    assert_eq!(mesh.line_groups, vec![(0, 3)]);
    let b = mesh.aabb.unwrap();
    assert_eq!(b.min, Position { x: -10, y: -20, z: -60 });
    assert_eq!(b.max, Position { x: 40, y: 50, z: 120 });
    assert_eq!(mesh.triangle_count(), 1);
}

#[test]
fn lines_are_grouped_in_order() {
    let lines = vec![block(EM, 0), vec![], block(2 * EM, 0)];
    let mesh = assemble_mesh(
        &lines,
        1,
        0,
        &VerticalLayout::Bottom,
        &HorizontalLayout::Left,
        &DepthLayout::Centered,
    );
    assert_eq!(mesh.line_count(), 3);
    assert_eq!(mesh.line_groups, vec![(0, 6), (6, 6), (6, 12)]);
    assert_eq!(mesh.vertex_count(), 12);
    assert_eq!(mesh.triangle_count(), 4);
    // the empty line still occupies a slot: the third line sits two lines up
    assert_eq!(mesh.positions[6].y, 2 * UNITS_PER_EM);
}

#[test]
fn right_alignment_ends_line_at_origin() {
    let h: u32 = 1000;
    let lines = vec![vec![v(0, 0, 0), v(EM, 0, 0), v(2 * EM, 0, 0)]];
    let mesh = assemble_mesh(
        &lines,
        h,
        0,
        &VerticalLayout::Bottom,
        &HorizontalLayout::Right,
        &DepthLayout::Centered,
    );
    let w = 2 * EM as i128 * h as i128;
    let xs: Vec<i128> = mesh.positions.iter().map(|p| p.x).collect();
    assert_eq!(xs, vec![-w, -w / 2, 0]);
    assert_eq!(*xs.iter().max().unwrap(), 0);
    assert_eq!(*xs.iter().min().unwrap(), -w);
}

#[test]
fn right_alignment_is_per_line() {
    let lines = vec![block(EM, 0), block(3 * EM, 0)];
    let mesh = assemble_mesh(
        &lines,
        2,
        0,
        &VerticalLayout::Top,
        &HorizontalLayout::Right,
        &DepthLayout::Centered,
    );
    for (s, e) in mesh.line_groups.iter().copied() {
        let max = mesh.positions[s..e].iter().map(|p| p.x).max().unwrap();
        assert_eq!(max, 0);
    }
    assert_eq!(mesh.positions[0].x, -2 * UNITS_PER_EM);
    assert_eq!(mesh.positions[6].x, -6 * UNITS_PER_EM);
}

#[test]
fn centered_horizontal_alignment() {
    let lines = vec![block(EM, 0)];
    let mesh = assemble_mesh(
        &lines,
        4,
        0,
        &VerticalLayout::Bottom,
        &HorizontalLayout::Centered,
        &DepthLayout::Centered,
    );
    let b = mesh.aabb.unwrap();
    assert_eq!(b.min.x, -2 * UNITS_PER_EM);
    assert_eq!(b.max.x, 2 * UNITS_PER_EM);
}

#[test]
fn front_alignment_shifts_half_depth() {
    let lines = vec![block(EM, 0), block(EM, EM)];
    let d: u32 = 5000;
    let centered = assemble_mesh(
        &lines,
        100,
        d,
        &VerticalLayout::Centered,
        &HorizontalLayout::Centered,
        &DepthLayout::Centered,
    );
    let front = assemble_mesh(
        &lines,
        100,
        d,
        &VerticalLayout::Centered,
        &HorizontalLayout::Centered,
        &DepthLayout::Front,
    );
    let back = assemble_mesh(
        &lines,
        100,
        d,
        &VerticalLayout::Centered,
        &HorizontalLayout::Centered,
        &DepthLayout::Back,
    );
    assert_eq!(centered.positions.len(), front.positions.len());
    for ((c, f), b) in centered.positions.iter().zip(front.positions.iter()).zip(back.positions.iter()) {
        assert_eq!(f.x, c.x);
        assert_eq!(f.y, c.y);
        assert_eq!(f.z, c.z - d as i128 * HALF_EM);
        assert_eq!(b.z, c.z + d as i128 * HALF_EM);
    }
}

#[test]
fn two_flat_centered_lines() {
    let text = MeshText::new("Hello,\nWorld!".to_string(), 100_000, 0);
    let lines = text.lines();
    assert_eq!(lines, vec!["Hello,".to_string(), "World!".to_string()]);
    assert!(text.is_flat());
    let outlines: Vec<Vec<OutlineVertex>> = lines.iter().map(|_| block(3 * EM, 0)).collect();
    let mesh = text.assemble(
        &outlines,
        &VerticalLayout::Centered,
        &HorizontalLayout::Left,
        &DepthLayout::Centered,
    );
    assert_eq!(mesh.line_count(), 2);
    assert!(mesh.positions.iter().all(|p| p.z == 0));
    let b = mesh.aabb.unwrap();
    assert_eq!(b.min.z, 0);
    assert_eq!(b.max.z, 0);
    assert_eq!(b.min.y + b.max.y, 0);
    assert_eq!(b.max.y, 100_000 * UNITS_PER_EM);
}

#[test]
fn empty_text_gives_empty_mesh() {
    let text = MeshText::new(String::new(), 100_000, 10_000);
    let lines = text.lines();
    assert!(lines.is_empty());
    let outlines: Vec<Vec<OutlineVertex>> = Vec::new();
    let mesh = text.assemble(
        &outlines,
        &VerticalLayout::Centered,
        &HorizontalLayout::Centered,
        &DepthLayout::Front,
    );
    assert_eq!(mesh.vertex_count(), 0);
    assert_eq!(mesh.triangle_count(), 0);
    assert_eq!(mesh.line_count(), 0);
    assert!(mesh.aabb.is_none());
}

#[test]
fn bounding_box_of_points() {
    assert!(bounding_box(&Vec::new()).is_none());
    let ps = vec![
        Position { x: 3, y: -1, z: 7 },
        Position { x: -2, y: 5, z: 0 },
        Position { x: 1, y: 2, z: -9 },
    ];
    let b = bounding_box(&ps).unwrap();
    assert_eq!(b.min, Position { x: -2, y: -1, z: -9 });
    assert_eq!(b.max, Position { x: 3, y: 5, z: 7 });
}

#[test]
fn extreme_coordinates_do_not_overflow() {
    let lines = vec![vec![v(i32::MIN, i32::MAX, i32::MIN), v(i32::MAX, i32::MIN, i32::MAX)]];
    let mesh = assemble_mesh(
        &lines,
        u32::MAX,
        u32::MAX,
        &VerticalLayout::Top,
        &HorizontalLayout::Centered,
        &DepthLayout::Back,
    );
    assert_eq!(mesh.vertex_count(), 2);
    let h = u32::MAX as i128;
    assert_eq!(mesh.positions[0].y, i32::MAX as i128 * h - h * UNITS_PER_EM);
}
