use chromatic::gen_2d_range;
use chromatic::nearest_hit;
use chromatic::pixel_coords;
use chromatic::rgb_bytes;
use chromatic::rgba_bytes;
use chromatic::trace_step;
use chromatic::Color;
use chromatic::TraceStep;

#[test]
fn color_new_keeps_channels() {
    let c = Color::new(12, 200, 255);
    assert_eq!(c.r, 12);
    assert_eq!(c.g, 200);
    assert_eq!(c.b, 255);
}

#[test]
fn color_data_order() {
    let c = Color::new(9, 8, 7);
    assert_eq!(c.data(), [9, 8, 7]);
}

#[test]
fn gen_2d_range_supersampling_offsets() {
    // The nine offsets the camera walks for each pixel, in row-major order.
    let offsets = gen_2d_range(-1, 2);
    assert_eq!(
        offsets,
        vec![
            (-1, -1),
            (-1, 0),
            (-1, 1),
            (0, -1),
            (0, 0),
            (0, 1),
            (1, -1),
            (1, 0),
            (1, 1),
        ]
    );
}

#[test]
fn gen_2d_range_empty_when_from_not_below_to() {
    assert_eq!(gen_2d_range(3, 3), vec![]);
    assert_eq!(gen_2d_range(5, 2), vec![]);
}

#[test]
fn gen_2d_range_single_cell() {
    assert_eq!(gen_2d_range(7, 8), vec![(7, 7)]);
}

#[test]
fn pixel_coords_row_major_origin_top_left() {
    // y = 0 is the top row; x runs along each row first.
    assert_eq!(pixel_coords(2, 2), vec![(0, 0), (1, 0), (0, 1), (1, 1)]);
}

#[test]
fn pixel_coords_single_row() {
    assert_eq!(pixel_coords(3, 1), vec![(0, 0), (1, 0), (2, 0)]);
}

#[test]
fn pixel_coords_empty_when_a_side_is_zero() {
    assert_eq!(pixel_coords(0, 4), Vec::<(u32, u32)>::new());
    assert_eq!(pixel_coords(4, 0), Vec::<(u32, u32)>::new());
}

#[test]
fn rgb_bytes_row_major_triples() {
    let pixels = vec![Color::new(1, 2, 3), Color::new(4, 5, 6)];
    assert_eq!(rgb_bytes(&pixels), vec![1, 2, 3, 4, 5, 6]);
}

#[test]
fn rgb_bytes_empty() {
    let pixels: Vec<Color> = Vec::new();
    assert_eq!(rgb_bytes(&pixels), Vec::<u8>::new());
}

#[test]
fn rgba_bytes_fixed_alpha() {
    let pixels = vec![Color::new(10, 20, 30), Color::new(0, 0, 0)];
    assert_eq!(rgba_bytes(&pixels), vec![10, 20, 30, 255, 0, 0, 0, 255]);
}

#[test]
fn nearest_hit_none_without_hits() {
    assert_eq!(nearest_hit(&Vec::new()), None);
    assert_eq!(nearest_hit(&vec![None, None, None]), None);
}

#[test]
fn nearest_hit_picks_minimal_key() {
    assert_eq!(nearest_hit(&vec![Some(9), None, Some(4), Some(7)]), Some(2));
    assert_eq!(nearest_hit(&vec![None, Some(3)]), Some(1));
}

#[test]
fn nearest_hit_tie_goes_to_first() {
    // Two objects hit at the identical distance: the earlier one wins.
    assert_eq!(nearest_hit(&vec![Some(5), Some(5)]), Some(0));
    assert_eq!(nearest_hit(&vec![None, Some(8), Some(2), Some(2)]), Some(2));
}

#[test]
fn trace_step_depth_zero_is_exhausted() {
    // The budget decides before any hit does.
    assert_eq!(trace_step(0, &vec![Some(1), Some(2)]), TraceStep::Exhausted);
    assert_eq!(trace_step(0, &Vec::new()), TraceStep::Exhausted);
}

#[test]
fn trace_step_bounces_on_first_nearest_hit() {
    assert_eq!(
        trace_step(50, &vec![Some(7), Some(3), Some(3)]),
        TraceStep::Bounce {
            winner: 1,
            next_depth: 49
        }
    );
}

#[test]
fn trace_step_background_without_hits() {
    assert_eq!(trace_step(50, &Vec::new()), TraceStep::Background);
    assert_eq!(trace_step(1, &vec![None, None]), TraceStep::Background);
}
