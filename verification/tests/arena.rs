use ketupa_demo_engine::layers::{
    color, instance, layer_bounds, Color, Instance, LayerBounds, Layers, Vec2Bits,
};

fn v(x: f32, y: f32) -> Vec2Bits {
    Vec2Bits::new(x.to_bits(), y.to_bits())
}

#[test]
fn capacity_sums_match_store_lengths() {
    let bounds = [layer_bounds(3, 5, 2), layer_bounds(4, 6, 1)];
    let arena = Layers::new(&bounds);
    assert_eq!(arena.all_vertices().len(), 7);
    assert_eq!(arena.all_indices().len(), 11);
    assert_eq!(arena.all_instances().len(), 3);
    assert_eq!(arena.len(), 2);
    assert!(!arena.is_empty());
}

#[test]
fn empty_arena() {
    let arena = Layers::new(&[]);
    assert_eq!(arena.len(), 0);
    assert!(arena.is_empty());
    assert_eq!(arena.all_vertices().len(), 0);
    assert_eq!(arena.widest_windows(), (0, 0));
    assert!(arena.get(0).is_none());
}

#[test]
fn backing_stores_zero_initialized() {
    let arena = Layers::new(&[layer_bounds(2, 3, 1)]);
    assert!(arena.all_vertices().iter().all(|p| p.x == 0 && p.y == 0));
    assert!(arena.all_indices().iter().all(|i| *i == 0));
    assert!(arena
        .all_instances()
        .iter()
        .all(|i| i.transform == [0u32; 6] && i.color == Color::new(0, 0, 0, 0)));
}

#[test]
fn reverse_packing_layout() {
    // Declared order [A, B]: B (declared last) sits at offset 0, A above it.
    let bounds = [layer_bounds(3, 3, 1), layer_bounds(5, 7, 2)];
    let arena = Layers::new(&bounds);
    let chunk_b = arena.range_at(0);
    let chunk_a = arena.range_at(1);
    assert_eq!(chunk_b.vertex_start, 0);
    assert_eq!(chunk_b.index_start, 0);
    assert_eq!(chunk_b.instance_start, 0);
    assert_eq!(chunk_a.vertex_start, 5);
    assert_eq!(chunk_a.index_start, 7);
    assert_eq!(chunk_a.instance_start, 2);
    // External indexing still addresses the declared order.
    let layer_a = arena.get(0).unwrap();
    let layer_b = arena.get(1).unwrap();
    assert_eq!(layer_a.max_vertices_len(), 3);
    assert_eq!(layer_a.max_indices_len(), 3);
    assert_eq!(layer_a.max_instances_len(), 1);
    assert_eq!(layer_b.max_vertices_len(), 5);
    assert_eq!(layer_b.max_indices_len(), 7);
    assert_eq!(layer_b.max_instances_len(), 2);
}

#[test]
fn out_of_range_layer_is_none() {
    let arena = Layers::new(&[layer_bounds(1, 1, 1)]);
    assert!(arena.get(1).is_none());
    assert!(arena.get(usize::MAX).is_none());
}

#[test]
fn extend_vertices_caps_at_capacity() {
    // Capacity 3 with 1 live vertex: extending by 5 accepts exactly 2.
    let mut arena = Layers::new(&[layer_bounds(3, 3, 1)]);
    arena.extend_vertices(0, &vec![v(1.0, 1.0)]);
    assert_eq!(arena.get(0).unwrap().vertices_len(), 1);
    let five = vec![v(2.0, 2.0), v(3.0, 3.0), v(4.0, 4.0), v(5.0, 5.0), v(6.0, 6.0)];
    arena.extend_vertices(0, &five);
    let layer = arena.get(0).unwrap();
    assert_eq!(layer.vertices_len(), 3);
    assert_eq!(layer.vertices(), &vec![v(1.0, 1.0), v(2.0, 2.0), v(3.0, 3.0)]);
}

#[test]
fn set_overflow_drops_silently() {
    let mut arena = Layers::new(&[layer_bounds(3, 3, 2)]);
    let many = vec![v(1.0, 0.0), v(2.0, 0.0), v(3.0, 0.0), v(4.0, 0.0), v(5.0, 0.0)];
    arena.set_vertices(0, &many);
    let layer = arena.get(0).unwrap();
    assert_eq!(layer.vertices_len(), 3);
    assert_eq!(layer.vertices(), &vec![v(1.0, 0.0), v(2.0, 0.0), v(3.0, 0.0)]);
    // A second set replaces, not appends.
    arena.set_vertices(0, &vec![v(9.0, 9.0)]);
    let layer = arena.get(0).unwrap();
    assert_eq!(layer.vertices_len(), 1);
    assert_eq!(layer.vertices(), &vec![v(9.0, 9.0)]);
}

#[test]
fn extend_instances_caps_at_capacity() {
    let mut arena = Layers::new(&[layer_bounds(1, 1, 2)]);
    let white = color(255, 255, 255, 255);
    let items = vec![
        instance([0; 6], white),
        instance([1, 0, 0, 0, 0, 0], white),
        instance([2, 0, 0, 0, 0, 0], white),
    ];
    arena.extend_instances(0, &items);
    let layer = arena.get(0).unwrap();
    assert_eq!(layer.instances_len(), 2);
    assert_eq!(layer.instances()[1], items[1]);
}

#[test]
fn set_indices_get_index_round_trip() {
    // Two layers so that layer 0 has a nonzero vertex offset.
    let bounds = [layer_bounds(2, 3, 1), layer_bounds(4, 4, 1)];
    let mut arena = Layers::new(&bounds);
    arena.set_indices(0, &vec![0, 1]);
    let layer = arena.get(0).unwrap();
    assert_eq!(layer.indices_len(), 2);
    assert_eq!(layer.get_index(0), Some(0));
    assert_eq!(layer.get_index(1), Some(1));
    // Outside the live range.
    assert_eq!(layer.get_index(2), None);
    // The stored values are rebased: layer 0's vertices start at global 4,
    // and its index window starts at global position 4.
    assert_eq!(arena.all_indices()[4], 4);
    assert_eq!(arena.all_indices()[5], 5);
    // The second layer keeps local numbering at offset 0.
    arena.set_indices(1, &vec![2, 3]);
    let layer = arena.get(1).unwrap();
    assert_eq!(layer.get_index(0), Some(2));
    assert_eq!(layer.get_index(1), Some(3));
    assert_eq!(arena.all_indices()[0], 2);
}

#[test]
fn round_trip_survives_wraparound() {
    // A large second layer pushes layer 0's vertex offset to 60000; an index
    // value near the 16-bit ceiling still round-trips exactly.
    let bounds = [layer_bounds(5, 2, 1), layer_bounds(60000, 2, 1)];
    let mut arena = Layers::new(&bounds);
    arena.set_indices(0, &vec![65000, 4]);
    let layer = arena.get(0).unwrap();
    assert_eq!(layer.get_index(0), Some(65000));
    assert_eq!(layer.get_index(1), Some(4));
}

#[test]
fn set_index_addresses_global_store() {
    let mut arena = Layers::new(&[layer_bounds(2, 3, 1), layer_bounds(4, 4, 1)]);
    arena.set_indices(0, &vec![0, 1]);
    // Layer 0's live index range is global positions 4 and 5.
    assert!(arena.set_index(0, 4, 1));
    let layer = arena.get(0).unwrap();
    assert_eq!(layer.get_index(0), Some(1));
    assert_eq!(layer.get_index(1), Some(1));
    // Beyond the global store: refused.
    assert!(!arena.set_index(0, 7, 0));
    assert!(!arena.set_index(1, usize::MAX, 0));
}

#[test]
fn clear_empties_live_range_only() {
    let mut arena = Layers::new(&[layer_bounds(3, 3, 1)]);
    arena.set_vertices(0, &vec![v(1.0, 2.0), v(3.0, 4.0)]);
    arena.set_indices(0, &vec![0, 1]);
    arena.set_instances(0, &vec![instance([0; 6], color(1, 2, 3, 4))]);
    arena.clear_vertices(0);
    arena.clear_indices(0);
    arena.clear_instances(0);
    let layer = arena.get(0).unwrap();
    assert_eq!(layer.vertices_len(), 0);
    assert_eq!(layer.indices_len(), 0);
    assert_eq!(layer.instances_len(), 0);
    assert_eq!(layer.max_vertices_len(), 3);
    // The backing bytes are untouched.
    assert_eq!(arena.all_vertices()[0], v(1.0, 2.0));
}

#[test]
fn truncate_is_a_no_op_below_the_ceiling() {
    let mut arena = Layers::new(&[layer_bounds(3, 3, 2)]);
    arena.set_vertices(0, &vec![v(1.0, 0.0), v(2.0, 0.0)]);
    // Below the capacity ceiling: the live range is left unchanged.
    arena.truncate_vertices(0, 1);
    assert_eq!(arena.get(0).unwrap().vertices_len(), 2);
    arena.truncate_vertices(0, 0);
    assert_eq!(arena.get(0).unwrap().vertices_len(), 2);
    // Exactly at the ceiling: the live range is moved there.
    arena.truncate_vertices(0, 3);
    assert_eq!(arena.get(0).unwrap().vertices_len(), 3);
    arena.truncate_indices(0, 3);
    assert_eq!(arena.get(0).unwrap().indices_len(), 3);
    arena.truncate_instances(0, 2);
    assert_eq!(arena.get(0).unwrap().instances_len(), 2);
}

#[test]
fn set_element_only_inside_live_range() {
    let mut arena = Layers::new(&[layer_bounds(3, 3, 2)]);
    arena.set_vertices(0, &vec![v(1.0, 1.0), v(2.0, 2.0)]);
    assert!(arena.set_vertex(0, 1, v(9.0, 9.0)));
    assert_eq!(arena.get(0).unwrap().vertices()[1], v(9.0, 9.0));
    // Inside the capacity window but outside the live range: refused.
    assert!(!arena.set_vertex(0, 2, v(8.0, 8.0)));
    arena.set_instances(0, &vec![instance([0; 6], color(1, 1, 1, 1))]);
    assert!(arena.set_instance(0, 0, instance([0; 6], color(2, 2, 2, 2))));
    assert_eq!(arena.get(0).unwrap().instances()[0].color, color(2, 2, 2, 2));
    assert!(!arena.set_instance(0, 1, instance([0; 6], color(3, 3, 3, 3))));
}

#[test]
fn widest_windows_finds_the_largest_layer() {
    let arena = Layers::new(&[layer_bounds(3, 5, 1), layer_bounds(7, 2, 2)]);
    assert_eq!(arena.widest_windows(), (7, 5));
    let arena = Layers::new(&[layer_bounds(4, 9, 1)]);
    assert_eq!(arena.widest_windows(), (4, 9));
}

#[test]
fn layer_snapshot_reflects_live_contents() {
    let mut arena = Layers::new(&[layer_bounds(4, 6, 2)]);
    let verts = vec![v(-180.0, 120.0), v(34.0, -174.0), v(110.0, 24.0)];
    arena.set_vertices(0, &verts);
    arena.set_indices(0, &vec![0, 1, 2]);
    let white = instance([0; 6], color(252, 186, 3, 255));
    arena.set_instances(0, &vec![white]);
    let layer = arena.get(0).unwrap();
    assert_eq!(layer.vertices(), &verts);
    assert_eq!(layer.instances(), &vec![white]);
    assert_eq!(layer.vertices_len(), 3);
    assert_eq!(layer.indices_len(), 3);
    assert_eq!(layer.instances_len(), 1);
}

#[test]
fn color_builders() {
    let c = color(1, 2, 3, 4);
    assert_eq!(c, Color::new(1, 2, 3, 4));
    assert_eq!(c.with_r(9), Color::new(9, 2, 3, 4));
    assert_eq!(c.with_g(9), Color::new(1, 9, 3, 4));
    assert_eq!(c.with_b(9), Color::new(1, 2, 9, 4));
    assert_eq!(c.with_a(9), Color::new(1, 2, 3, 9));
}

#[test]
fn instance_builders() {
    let c = color(5, 6, 7, 8);
    let t = [1u32, 2, 3, 4, 5, 6];
    let i = instance(t, c);
    assert_eq!(i, Instance::new(t, c));
    assert_eq!(i.transform, t);
    assert_eq!(i.color, c);
    let j = i.with_color(color(9, 9, 9, 9));
    assert_eq!(j.transform, t);
    assert_eq!(j.color, color(9, 9, 9, 9));
    let k = i.with_transform([0u32; 6]);
    assert_eq!(k.transform, [0u32; 6]);
    assert_eq!(k.color, c);
    assert_eq!(Instance::zero().transform, [0u32; 6]);
}

#[test]
fn layer_bounds_builder() {
    let b = layer_bounds(10, 20, 30);
    assert_eq!(b, LayerBounds::new(10, 20, 30));
    assert_eq!(b.max_vertices, 10);
    assert_eq!(b.max_indices, 20);
    assert_eq!(b.max_instances, 30);
}
