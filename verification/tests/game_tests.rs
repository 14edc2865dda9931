use raycaster::game::{
    move_with_collision, sweep_ray, Game, KeyCode, ViewMode, PLAYER_ROTATION_SPEED,
};
use raycaster::geometry::{normalize_angle, Axis, Vec2, EPSILON, HALF_PI, TWO_PI};
use raycaster::grid::GridMap;
use raycaster::renderer::Renderer;

fn corridor_map() -> GridMap {
    // Two cells side by side, 25 world units each: an empty cell and a wall.
    GridMap::new(vec![0, 1], 2, 1, 25_000_000).expect("valid map")
}

#[test]
fn grid_map_new_rejects_bad_shapes() {
    assert!(GridMap::new(vec![0, 1], 2, 1, 25_000_000).is_some());
    assert!(GridMap::new(vec![0, 1, 0], 2, 1, 25_000_000).is_none());
    assert!(GridMap::new(vec![0, 1], 0, 1, 25_000_000).is_none());
    assert!(GridMap::new(vec![0, 1], 2, 1, 0).is_none());
    assert!(GridMap::new(vec![0, 1], 2, 1, -5).is_none());
}

#[test]
fn lookups_outside_the_grid_count_as_walls() {
    let map = corridor_map();
    assert!(!map.is_wall(Vec2 { x: 0i64, y: 0i64 }));
    assert!(map.is_wall(Vec2 { x: 1i64, y: 0i64 }));
    assert!(map.is_wall(Vec2 { x: -1i64, y: 0i64 }));
    assert!(map.is_wall(Vec2 { x: 2i64, y: 0i64 }));
    assert!(map.is_wall(Vec2 { x: 0i64, y: 1i64 }));
    assert!(map.is_wall(Vec2 { x: 0i64, y: -1i64 }));
}

#[test]
fn movement_into_a_wall_one_step_away_is_blocked() {
    let map = corridor_map();
    // One movement step (2.5 units) from the wall cell's boundary, heading
    // straight at it.
    let position = Vec2 { x: 24_000_000i64, y: 12_500_000i64 };
    let after = move_with_collision(&map, position, HALF_PI, 2_500_000);
    // The exit point would cross into the wall cell, so the player stays
    // strictly before the boundary, never inside the wall.
    assert_eq!(after.x, position.x);
    assert_eq!(after.y, position.y);
    assert!(after.x < 25_000_000 - EPSILON);
}

#[test]
fn movement_in_the_open_advances_by_the_bounding_box() {
    let map = corridor_map();
    let position = Vec2 { x: 10_000_000i64, y: 12_500_000i64 };
    let after = move_with_collision(&map, position, HALF_PI, 2_500_000);
    // The cast exits the right side of the 2.5-unit movement box, nudged
    // past it: half a box plus the epsilon margin.
    assert_eq!(after.x, 11_300_000);
    assert_eq!(after.y, 12_450_000);
    assert!(!map.is_wall(Vec2 { x: after.x / 25_000_000, y: after.y / 25_000_000 }));
}

#[test]
fn sweep_stops_at_the_border_wall() {
    let game = Game::new();
    let (hit, axis) = sweep_ray(
        &game.current_map,
        Vec2 { x: 50_000_000i64, y: 70_000_000i64 },
        0,
        Axis::OnX,
        15,
    );
    // Heading zero walks toward smaller y; the border row stops the ray
    // just past the row boundary, two cells up.
    assert!(matches!(axis, Axis::OnY));
    assert_eq!(hit.y, 25_000_000 - EPSILON);
    assert_eq!(hit.x, 50_000_000 - 2 * EPSILON);
}

#[test]
fn sweep_with_no_budget_returns_the_origin() {
    let game = Game::new();
    let origin = Vec2 { x: 50_000_000i64, y: 70_000_000i64 };
    let (hit, axis) = sweep_ray(&game.current_map, origin, 0, Axis::OnX, 0);
    assert!(matches!(axis, Axis::OnX));
    assert_eq!(hit.x, origin.x);
    assert_eq!(hit.y, origin.y);
}

#[test]
fn new_game_matches_its_stated_configuration() {
    let game = Game::new();
    assert_eq!(game.main_player.position.x, 50_000_000);
    assert_eq!(game.main_player.position.y, 70_000_000);
    assert_eq!(game.main_player.pitch, 199_662);
    assert_eq!(game.main_player.movement_speed, 2_500_000);
    assert_eq!(game.camera.max_visible_distance, 15);
    assert_eq!(game.camera.fov, 90_000_000);
    assert_eq!(game.current_map.topography_x, 10);
    assert_eq!(game.current_map.topography_y, 10);
    assert_eq!(game.current_map.topography.len(), 100);
    assert_eq!(game.current_map.square_width, 25_000_000);
    assert_eq!(game.ticks_ms, 0);
    // A fully solid border.
    for i in 0..10i64 {
        assert!(game.current_map.is_wall(Vec2 { x: i, y: 0i64 }));
        assert!(game.current_map.is_wall(Vec2 { x: 0i64, y: i }));
    }
}

#[test]
fn rotation_keys_turn_and_renormalize_the_heading() {
    let mut game = Game::new();
    let mut renderer = Renderer::new();
    renderer.update(Vec2 { x: 20, y: 10 });
    let before = game.main_player.pitch;

    game.update(&mut renderer, KeyCode::RotateRight, ViewMode::Mode2d, 0);
    assert_eq!(game.main_player.pitch, before + PLAYER_ROTATION_SPEED);

    game.update(&mut renderer, KeyCode::RotateLeft, ViewMode::Mode2d, 0);
    game.update(&mut renderer, KeyCode::RotateLeft, ViewMode::Mode2d, 0);
    assert_eq!(
        game.main_player.pitch,
        normalize_angle(before - PLAYER_ROTATION_SPEED)
    );
    assert!(game.main_player.pitch <= TWO_PI);

    // Rotating left past zero wraps the heading around the full turn.
    game.main_player.pitch = 0;
    game.update(&mut renderer, KeyCode::RotateLeft, ViewMode::Mode2d, 0);
    assert_eq!(game.main_player.pitch, TWO_PI - PLAYER_ROTATION_SPEED);
}

#[test]
fn tick_timestamp_advances_only_after_a_full_tick() {
    let mut game = Game::new();
    let mut renderer = Renderer::new();
    renderer.update(Vec2 { x: 20, y: 10 });
    game.update(&mut renderer, KeyCode::Up, ViewMode::Mode2d, 599);
    assert_eq!(game.ticks_ms, 0);
    game.update(&mut renderer, KeyCode::Up, ViewMode::Mode2d, 600);
    assert_eq!(game.ticks_ms, 600);
    game.update(&mut renderer, KeyCode::Up, ViewMode::Mode2d, 700);
    assert_eq!(game.ticks_ms, 600);
}

#[test]
fn forward_movement_respects_walls_eventually() {
    let mut game = Game::new();
    let mut renderer = Renderer::new();
    renderer.update(Vec2 { x: 20, y: 10 });
    // Walk forward many ticks; the player must never end in a wall cell.
    for _ in 0..60 {
        game.update(&mut renderer, KeyCode::Forward, ViewMode::Mode2d, 0);
        let sq = game.calculate_current_square(game.main_player.position);
        assert!(!game.current_map.is_wall(sq));
    }
}

#[test]
fn one_quiet_tick_leaves_the_player_unchanged_and_is_deterministic() {
    // The end-to-end scene: the stock walled map, the player at a known
    // interior point, one update with no key pressed.
    let mut game_a = Game::new();
    let mut renderer_a = Renderer::new();
    renderer_a.update(Vec2 { x: 40, y: 20 });
    game_a.update(&mut renderer_a, KeyCode::Up, ViewMode::Mode3d, 600);
    assert_eq!(game_a.main_player.position.x, 50_000_000);
    assert_eq!(game_a.main_player.position.y, 70_000_000);
    assert_eq!(game_a.main_player.pitch, 199_662);

    // The composed frame is reproducible bit for bit across runs.
    let mut game_b = Game::new();
    let mut renderer_b = Renderer::new();
    renderer_b.update(Vec2 { x: 40, y: 20 });
    game_b.update(&mut renderer_b, KeyCode::Up, ViewMode::Mode3d, 600);
    assert_eq!(renderer_a.back, renderer_b.back);

    // And the emitted diff runs are identical too.
    let runs_a = renderer_a.render();
    let runs_b = renderer_b.render();
    assert_eq!(runs_a.len(), runs_b.len());
    for (ra, rb) in runs_a.iter().zip(runs_b.iter()) {
        assert_eq!(ra.x, rb.x);
        assert_eq!(ra.y, rb.y);
        assert_eq!(ra.bytes, rb.bytes);
    }
    // Something was actually drawn.
    assert!(!runs_a.is_empty());
}

#[test]
fn quit_key_moves_nothing_but_renormalizes_the_heading() {
    let mut game = Game::new();
    let mut renderer = Renderer::new();
    renderer.update(Vec2 { x: 20, y: 10 });
    game.update(&mut renderer, KeyCode::Quit, ViewMode::Mode2dAnd3d, 0);
    assert_eq!(game.main_player.position.x, 50_000_000);
    assert_eq!(game.main_player.position.y, 70_000_000);
    assert_eq!(game.main_player.pitch, 199_662);
}
