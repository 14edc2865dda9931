use raycaster::geometry::Vec2;
use raycaster::renderer::{DiffRun, Renderer, CHAR_EMPTY, FORCE_PAINT_CHAR};

fn renderer_with(dims: (i16, i16), front: Vec<u8>, back: Vec<u8>) -> Renderer {
    Renderer { screen_dimensions: Vec2 { x: dims.0, y: dims.1 }, front, back }
}

fn run_parts(r: &DiffRun) -> (i16, i16, Vec<u8>) {
    (r.x, r.y, r.bytes.clone())
}

#[test]
fn identical_buffers_emit_no_runs() {
    let buf = vec![7u8; 8];
    let r = renderer_with((4, 2), buf.clone(), buf);
    let runs = r.render_frame();
    assert_eq!(runs.len(), 0);
}

#[test]
fn one_changed_range_emits_one_run_at_the_right_cell() {
    let back = vec![0u8; 8];
    let mut front = vec![0u8; 8];
    front[2] = 9;
    front[3] = 9;
    front[4] = 9;
    let r = renderer_with((4, 2), front, back);
    let runs = r.render_frame();
    assert_eq!(runs.len(), 1);
    assert_eq!(run_parts(&runs[0]), (2, 0, vec![9, 9, 9]));
}

#[test]
fn a_run_opening_on_a_later_row_gets_that_row_cursor() {
    let back = vec![0u8; 8];
    let mut front = vec![0u8; 8];
    front[5] = 1;
    front[6] = 2;
    let r = renderer_with((4, 2), front, back);
    let runs = r.render_frame();
    assert_eq!(runs.len(), 1);
    assert_eq!(run_parts(&runs[0]), (1, 1, vec![1, 2]));
}

#[test]
fn two_disjoint_ranges_emit_two_runs() {
    let back = vec![0u8; 8];
    let mut front = vec![0u8; 8];
    front[1] = 5;
    front[5] = 6;
    front[6] = 7;
    let r = renderer_with((4, 2), front, back);
    let runs = r.render_frame();
    assert_eq!(runs.len(), 2);
    assert_eq!(run_parts(&runs[0]), (1, 0, vec![5]));
    assert_eq!(run_parts(&runs[1]), (1, 1, vec![6, 7]));
}

#[test]
fn a_run_still_open_at_the_end_flushes_to_the_buffer_end() {
    let back = vec![0u8; 8];
    let mut front = vec![0u8; 8];
    front[6] = 3;
    front[7] = 4;
    let r = renderer_with((4, 2), front, back);
    let runs = r.render_frame();
    assert_eq!(runs.len(), 1);
    assert_eq!(run_parts(&runs[0]), (2, 1, vec![3, 4]));
}

#[test]
fn render_swaps_roles_and_diffs_the_new_frame_against_the_old() {
    let previous = vec![0u8; 8];
    let mut composed = vec![0u8; 8];
    composed[0] = 9;
    let mut r = renderer_with((4, 2), previous.clone(), composed.clone());
    let runs = r.render();
    assert_eq!(r.front, composed);
    assert_eq!(r.back, previous);
    assert_eq!(runs.len(), 1);
    assert_eq!(run_parts(&runs[0]), (0, 0, vec![9]));
}

#[test]
fn new_renderer_starts_with_sentinel_dimensions_and_empty_buffers() {
    let r = Renderer::new();
    assert_eq!(r.screen_dimensions.x, -1);
    assert_eq!(r.screen_dimensions.y, -1);
    assert!(r.front.is_empty());
    assert!(r.back.is_empty());
    assert_eq!(r.get_screen_dim().x, -1);
}

#[test]
fn first_update_resizes_and_forces_a_full_repaint() {
    let mut r = Renderer::new();
    r.update(Vec2 { x: 4, y: 2 });
    assert_eq!(r.screen_dimensions.x, 4);
    assert_eq!(r.screen_dimensions.y, 2);
    assert_eq!(r.front, vec![FORCE_PAINT_CHAR; 8]);
    assert_eq!(r.back, vec![CHAR_EMPTY; 8]);
    // The next render then repaints every cell in one run.
    let runs = r.render();
    assert_eq!(runs.len(), 1);
    assert_eq!(run_parts(&runs[0]), (0, 0, vec![CHAR_EMPTY; 8]));
}

#[test]
fn update_with_unchanged_dimensions_only_clears_the_back_buffer() {
    let mut r = Renderer::new();
    r.update(Vec2 { x: 4, y: 2 });
    r.draw_point_unnormalized(Vec2 { x: 0, y: 0 }, 9);
    r.render();
    let front_before = r.front.clone();
    r.update(Vec2 { x: 4, y: 2 });
    assert_eq!(r.front, front_before);
    assert_eq!(r.back, vec![CHAR_EMPTY; 8]);
}

#[test]
fn transposed_dimensions_with_equal_area_still_force_a_repaint() {
    let mut r = Renderer::new();
    r.update(Vec2 { x: 4, y: 2 });
    r.render();
    r.update(Vec2 { x: 2, y: 4 });
    assert_eq!(r.screen_dimensions.x, 2);
    assert_eq!(r.front, vec![FORCE_PAINT_CHAR; 8]);
    assert_eq!(r.back, vec![CHAR_EMPTY; 8]);
}

#[test]
fn draw_point_unnormalized_writes_in_bounds_and_clips_outside() {
    let mut r = renderer_with((4, 2), vec![0u8; 8], vec![0u8; 8]);
    r.draw_point_unnormalized(Vec2 { x: 2, y: 1 }, 9);
    assert_eq!(r.back[6], 9);
    let before = r.back.clone();
    r.draw_point_unnormalized(Vec2 { x: 4, y: 0 }, 9);
    r.draw_point_unnormalized(Vec2 { x: -1, y: 0 }, 9);
    r.draw_point_unnormalized(Vec2 { x: 0, y: 2 }, 9);
    assert_eq!(r.back, before);
}

#[test]
fn draw_point_halves_the_y_coordinate() {
    let mut r = renderer_with((4, 4), vec![0u8; 16], vec![0u8; 16]);
    r.draw_point(Vec2 { x: 3, y: 5 }, 8);
    // Row 5 compresses to row 2.
    assert_eq!(r.back[2 * 4 + 3], 8);
    assert_eq!(r.back.iter().filter(|&&b| b == 8).count(), 1);
}

#[test]
fn fill_operations_cover_the_whole_back_buffer() {
    let mut r = renderer_with((4, 2), vec![0u8; 8], vec![0u8; 8]);
    r.blackout_whole_screen();
    assert_eq!(r.back, vec![178u8; 8]);
    r.force_paint_whole_screen();
    assert_eq!(r.back, vec![FORCE_PAINT_CHAR; 8]);
    r.clear_whole_screen();
    assert_eq!(r.back, vec![CHAR_EMPTY; 8]);
}

#[test]
fn horizontal_draw_line_sets_exactly_the_swept_cells() {
    let mut r = renderer_with((8, 4), vec![CHAR_EMPTY; 32], vec![CHAR_EMPTY; 32]);
    r.draw_line(
        Vec2 { x: 0i64, y: 0i64 },
        Vec2 { x: 4_000_000i64, y: 0i64 },
        b'X',
    );
    for x in 0..4usize {
        assert_eq!(r.back[x], b'X', "column {x}");
    }
    for i in 4..32usize {
        assert_eq!(r.back[i], CHAR_EMPTY, "cell {i}");
    }
}

#[test]
fn steep_draw_line_transposes_and_still_descends() {
    let mut r = renderer_with((8, 4), vec![CHAR_EMPTY; 32], vec![CHAR_EMPTY; 32]);
    r.draw_line(
        Vec2 { x: 2_000_000i64, y: 0i64 },
        Vec2 { x: 2_000_000i64, y: 6_000_000i64 },
        b'#',
    );
    // The walk covers rows 0..6 of line space, compressed to rows 0..3.
    let marked: Vec<usize> = (0..32).filter(|&i| r.back[i] == b'#').collect();
    assert_eq!(marked, vec![2, 8 + 2, 2 * 8 + 2]);
}

#[test]
fn diagonal_draw_line_steps_the_cross_axis_with_the_error_term() {
    let mut r = renderer_with((8, 4), vec![CHAR_EMPTY; 32], vec![CHAR_EMPTY; 32]);
    r.draw_line(
        Vec2 { x: 0i64, y: 0i64 },
        Vec2 { x: 2_000_000i64, y: 4_000_000i64 },
        b'/',
    );
    // The steep walk visits line cells (0,0),(0,1),(1,2),(1,3); the
    // y-compression folds them onto exactly two screen cells.
    let marked: Vec<usize> = (0..32).filter(|&i| r.back[i] == b'/').collect();
    assert_eq!(marked, vec![0, 8 + 1]);
}

#[test]
fn draw_dot_marks_a_plus_shape_around_the_center() {
    let mut r = renderer_with((16, 8), vec![CHAR_EMPTY; 128], vec![CHAR_EMPTY; 128]);
    r.draw_dot(Vec2 { x: 8_000_000i64, y: 8_000_000i64 }, b'@');
    // The horizontal arm runs left from x+3 at compressed row 4.
    assert_eq!(r.back[4 * 16 + 8], b'@');
    assert_eq!(r.back[4 * 16 + 6], b'@');
    // The vertical arm crosses the center column.
    assert_eq!(r.back[3 * 16 + 8], b'@');
}
