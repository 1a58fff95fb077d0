use ferret_engine::sprite::{
    plan_batches, BatchError, DrawCall, Shape2D, MAX_SPRITES_PER_BATCH,
};

fn draw(shape: Shape2D, first_instance: u32, instance_count: u32) -> DrawCall {
    DrawCall { shape, first_instance, instance_count }
}

#[test]
fn two_shapes_mixed_order() {
    // red square, blue square, then a circle
    let shapes = vec![Shape2D::Square, Shape2D::Square, Shape2D::Circle];
    let batch = plan_batches(&shapes).unwrap();
    assert_eq!(batch.draws.len(), 2);
    let square = batch.draws.iter().find(|d| d.shape == Shape2D::Square).unwrap();
    assert_eq!(square.instance_count, 2);
    let slots = &batch.order[square.first_instance as usize..(square.first_instance + square.instance_count) as usize];
    assert_eq!(slots, &[0, 1]);
    assert_eq!(batch.order, vec![0, 1, 2]);
    assert_eq!(batch.draws, vec![draw(Shape2D::Square, 0, 2), draw(Shape2D::Circle, 2, 1)]);
}

#[test]
fn interleaved_shapes_are_grouped_in_input_order() {
    let shapes = vec![
        Shape2D::Circle,
        Shape2D::Square,
        Shape2D::Circle,
        Shape2D::Square,
        Shape2D::Square,
    ];
    let batch = plan_batches(&shapes).unwrap();
    assert_eq!(batch.order, vec![1, 3, 4, 0, 2]);
    assert_eq!(batch.draws, vec![draw(Shape2D::Square, 0, 3), draw(Shape2D::Circle, 3, 2)]);
}

#[test]
fn one_shape_gives_one_draw_call() {
    let shapes = vec![Shape2D::Circle; 7];
    let batch = plan_batches(&shapes).unwrap();
    assert_eq!(batch.order, (0..7).collect::<Vec<usize>>());
    assert_eq!(batch.draws, vec![draw(Shape2D::Circle, 0, 7)]);
}

#[test]
fn no_sprites_give_no_draw_calls() {
    let batch = plan_batches(&Vec::new()).unwrap();
    assert!(batch.order.is_empty());
    assert!(batch.draws.is_empty());
}

#[test]
fn draw_count_is_distinct_shapes_and_counts_sum_to_sprites() {
    let shapes: Vec<Shape2D> = (0..40)
        .map(|i| if i % 3 == 0 { Shape2D::Circle } else { Shape2D::Square })
        .collect();
    let batch = plan_batches(&shapes).unwrap();
    assert_eq!(batch.draws.len(), 2);
    let total: u32 = batch.draws.iter().map(|d| d.instance_count).sum();
    assert_eq!(total, 40);
}

#[test]
fn instance_ranges_tile_all_slots() {
    let shapes: Vec<Shape2D> = (0..25)
        .map(|i| if i % 4 == 1 { Shape2D::Square } else { Shape2D::Circle })
        .collect();
    let batch = plan_batches(&shapes).unwrap();
    let mut next = 0u32;
    for d in &batch.draws {
        assert_eq!(d.first_instance, next);
        assert!(d.instance_count > 0);
        for slot in d.first_instance..d.first_instance + d.instance_count {
            assert_eq!(shapes[batch.order[slot as usize]], d.shape);
        }
        next = d.first_instance + d.instance_count;
    }
    assert_eq!(next, 25);
    let mut seen = batch.order.clone();
    seen.sort();
    assert_eq!(seen, (0..25).collect::<Vec<usize>>());
}

#[test]
fn exactly_full_capacity_is_accepted() {
    let shapes = vec![Shape2D::Square; MAX_SPRITES_PER_BATCH];
    let batch = plan_batches(&shapes).unwrap();
    assert_eq!(batch.order.len(), 100);
    assert_eq!(batch.draws, vec![draw(Shape2D::Square, 0, 100)]);
}

#[test]
fn one_over_capacity_is_refused_every_time() {
    let shapes = vec![Shape2D::Circle; MAX_SPRITES_PER_BATCH + 1];
    let expected = BatchError::CapacityExceeded { requested: 101, capacity: 100 };
    assert_eq!(plan_batches(&shapes), Err(expected));
    assert_eq!(plan_batches(&shapes), Err(expected));
}
