//! The game state machine: the player actor, the camera, the per-tick
//! input transition (movement with wall collision, rotation), and the
//! per-frame scene composition that sweeps the field of view and turns
//! ray hits into draw calls.

use vstd::prelude::*;
use vstd::arithmetic::div_mod::{lemma_fundamental_div_mod, lemma_mod_bound};
use crate::fixed::{
    clamp_fx, floor_div, fx_add, fx_div, fx_div_spec, fx_half, fx_half_spec, fx_mul, fx_mul_spec,
    fx_sub, fx_trunc, fx_trunc_spec, in_fx_range, int_to_fx,
};
use crate::geometry::{
    cast_ray, cast_ray_spec, distance_spec, fx_ceil_units, normalize_angle, normalize_angle_spec,
    points_distance, wf_vec2_fx, Axis, Vec2, HALF_PI, PI_FX, RADIAN, TWO_PI,
};
use crate::grid::GridMap;
use crate::renderer::{draw_line_spec, Renderer, BLACK_BOX_CHAR, STRIP_BOX_CHAR};

verus! {

/// How much one rotation key press turns the player, in fixed-point
/// radians.
pub const PLAYER_ROTATION_SPEED: i64 = 100_000;

/// One game tick, in milliseconds.
pub const TICK_DURATION_MS: u64 = 600;

/// The key codes the game reacts to, as the input source reports them.
#[derive(Clone, Copy, PartialEq, Eq, Structural)]
pub enum KeyCode {
    Up,
    Forward,
    Left,
    Right,
    Back,
    RotateLeft,
    RotateRight,
    Quit,
}

/// Which projection the scene composition draws.
#[derive(Clone, Copy, PartialEq, Eq, Structural)]
pub enum ViewMode {
    Mode2d,
    Mode3d,
    Mode2dAnd3d,
}

/// Immutable view configuration: how many cells a ray may traverse and
/// the field of view in fixed-point degrees.
pub struct Camera {
    pub max_visible_distance: i32,
    pub fov: i64,
}

/// A positioned actor: fixed-point world position, heading in normalized
/// fixed-point radians, and movement speed in world units per step.
pub struct Actor {
    pub position: Vec2<i64>,
    pub pitch: i64,
    pub movement_speed: i64,
}

/// The whole game state: the map, the player, the camera, and the tick
/// timestamp.
pub struct Game {
    pub ticks_ms: u64,
    pub current_map: GridMap,
    pub main_player: Actor,
    pub camera: Camera,
}

/// The grid cell holding the fixed-point point `(px, py)`.
pub open spec fn square_of_spec(map: GridMap, px: int, py: int) -> (int, int) {
    (px / map.square_width as int, py / map.square_width as int)
}

/// The sweep from `(px, py)`: step cell by cell along the heading until a
/// blocking cell or the step cap, carrying the axis of the last boundary
/// crossed. A blocked or exhausted sweep returns the last exit point.
pub open spec fn sweep_spec(
    map: GridMap,
    px: int,
    py: int,
    pitch: int,
    axis: Axis,
    steps: nat,
) -> (int, int, Axis)
    decreases steps,
{
    if steps == 0 {
        (px, py, axis)
    } else {
        let sq = square_of_spec(map, px, py);
        if map.is_wall_spec(sq.0, sq.1) {
            (px, py, axis)
        } else {
            let tlx = sq.0 * map.square_width;
            let tly = sq.1 * map.square_width;
            let hit = cast_ray_spec(
                px,
                py,
                pitch,
                tlx,
                tly,
                map.square_width as int,
                map.square_width as int,
            );
            sweep_spec(map, hit.0, hit.1, pitch, hit.2, (steps - 1) as nat)
        }
    }
}

/// One movement step with collision: cast within the player's own
/// bounding box toward the heading, and stay put when the exit point
/// would land in a blocking cell.
pub open spec fn move_spec(map: GridMap, px: int, py: int, pitch: int, speed: int) -> (int, int) {
    let half = fx_half_spec(speed);
    let tlx = clamp_fx(px - half);
    let tly = clamp_fx(py - half);
    let hit = cast_ray_spec(px, py, pitch, tlx, tly, speed, speed);
    let sq = square_of_spec(map, hit.0, hit.1);
    if map.is_wall_spec(sq.0, sq.1) {
        (px, py)
    } else {
        (hit.0, hit.1)
    }
}

/// The wall glyph for a given struck boundary axis: vertical boundaries
/// shade solid, horizontal ones striped.
pub open spec fn glyph_of(axis: Axis) -> u8 {
    match axis {
        Axis::OnX => BLACK_BOX_CHAR,
        Axis::OnY => STRIP_BOX_CHAR,
    }
}

/// The back buffer after drawing one ray's wall slab column by column in
/// the first-person projection: each screen column from `i` up to `n`
/// gets a vertical segment whose ends move together as the slab (the
/// scaled ray distance) grows, stopping early once they would cross.
pub open spec fn slab3d_fold(
    back: Seq<u8>,
    d: Vec2<i16>,
    ray_line: int,
    slab: int,
    glyph: u8,
    i: int,
    n: int,
) -> Seq<u8>
    decreases n - i,
{
    if i >= n {
        back
    } else {
        let colx = clamp_fx(ray_line + i * 1_000_000);
        let upy = fx_mul_spec(slab, 1_200_000);
        let downy = fx_mul_spec(1_800_000, clamp_fx(d.y * 1_000_000 - slab));
        if upy > downy {
            back
        } else {
            slab3d_fold(
                draw_line_spec(back, d, colx, upy, colx, downy, glyph),
                d,
                ray_line,
                slab,
                glyph,
                i + 1,
                n,
            )
        }
    }
}

/// The back buffer after drawing one ray in the combined projection: for
/// each screen column both the wall slab and the top-down ray line from
/// the player to the hit point are drawn.
pub open spec fn combined_fold(
    back: Seq<u8>,
    d: Vec2<i16>,
    ray_line: int,
    slab: int,
    ppx: int,
    ppy: int,
    hx: int,
    hy: int,
    glyph: u8,
    i: int,
    n: int,
) -> Seq<u8>
    decreases n - i,
{
    if i >= n {
        back
    } else {
        let colx = clamp_fx(ray_line + i * 1_000_000);
        let boty = clamp_fx(fx_mul_spec(d.y * 1_000_000, 1_150_000) - slab);
        let back2 = draw_line_spec(back, d, colx, slab, colx, boty, glyph);
        let back3 = draw_line_spec(back2, d, ppx, ppy, hx, hy, glyph);
        combined_fold(back3, d, ray_line, slab, ppx, ppy, hx, hy, glyph, i + 1, n)
    }
}

/// One column of the scene sweep: normalize the column heading, sweep the
/// ray, advance the column's screen position and heading, and draw the
/// hit in the requested projection. Yields the new back buffer, the next
/// column's raw heading, the next screen position, and the carried axis.
pub open spec fn column_spec(
    map: GridMap,
    ppx: int,
    ppy: int,
    maxd: nat,
    d: Vec2<i16>,
    mode: ViewMode,
    dx: int,
    dy: int,
    back: Seq<u8>,
    crp: int,
    rl: int,
    axis: Axis,
) -> (Seq<u8>, int, int, Axis) {
    let crpn = normalize_angle_spec(crp);
    let hit = sweep_spec(map, ppx, ppy, crpn, axis, maxd);
    let rl2 = clamp_fx(rl + dx);
    let crp2 = crpn + RADIAN;
    let g = glyph_of(hit.2);
    let slab = fx_mul_spec(
        ((distance_spec(ppx, ppy, hit.0, hit.1) + 999_999) / 1_000_000) * 1_000_000,
        dy,
    );
    let n = fx_trunc_spec(dx) + 1;
    let back2 = match mode {
        ViewMode::Mode2d => draw_line_spec(back, d, ppx, ppy, hit.0, hit.1, g),
        ViewMode::Mode3d => slab3d_fold(back, d, rl2, slab, g, 0, n),
        ViewMode::Mode2dAnd3d => combined_fold(
            back,
            d,
            rl2,
            slab,
            ppx,
            ppy,
            hit.0,
            hit.1,
            g,
            0,
            n,
        ),
    };
    (back2, crp2, rl2, hit.2)
}

/// The whole scene: fold `column_spec` over the field-of-view columns,
/// threading the back buffer, the column heading, the screen position,
/// and the carried axis from one column to the next.
pub open spec fn scene_fold(
    map: GridMap,
    ppx: int,
    ppy: int,
    maxd: nat,
    d: Vec2<i16>,
    mode: ViewMode,
    dx: int,
    dy: int,
    back: Seq<u8>,
    crp: int,
    rl: int,
    axis: Axis,
    col: int,
    cols: int,
) -> Seq<u8>
    decreases cols - col,
{
    if col >= cols {
        back
    } else {
        let step = column_spec(map, ppx, ppy, maxd, d, mode, dx, dy, back, crp, rl, axis);
        scene_fold(map, ppx, ppy, maxd, d, mode, dx, dy, step.0, step.1, step.2, step.3, col + 1, cols)
    }
}

/// The back buffer after composing the whole scene for a game state.
pub open spec fn scene_spec(g: Game, d: Vec2<i16>, mode: ViewMode, back: Seq<u8>) -> Seq<u8> {
    let dx = fx_div_spec(d.x * 1_000_000, g.camera.fov as int);
    let dy = fx_div_spec(
        d.y * 1_000_000,
        fx_mul_spec(g.camera.max_visible_distance * 1_000_000, g.current_map.square_width as int),
    );
    let crp0 = clamp_fx(
        g.main_player.pitch - fx_mul_spec(fx_half_spec(g.camera.fov as int), RADIAN as int),
    );
    scene_fold(
        g.current_map,
        g.main_player.position.x as int,
        g.main_player.position.y as int,
        g.camera.max_visible_distance as nat,
        d,
        mode,
        dx,
        dy,
        back,
        crp0,
        0,
        Axis::OnX,
        0,
        fx_trunc_spec(g.camera.fov as int),
    )
}

/// The heading a movement key walks along: forward keeps the heading,
/// strafing and backing rotate it by a quarter, half, or three-quarter
/// turn before the cast.
pub open spec fn movement_pitch_spec(pitch: int, key: KeyCode) -> int {
    match key {
        KeyCode::Forward => pitch,
        KeyCode::Right => normalize_angle_spec(pitch + HALF_PI),
        KeyCode::Back => normalize_angle_spec(pitch + PI_FX),
        KeyCode::Left => normalize_angle_spec(pitch + PI_FX + HALF_PI),
        _ => pitch,
    }
}

/// The player position after one tick's input: movement keys take one
/// collision-checked step along the key's heading, other keys leave the
/// position alone.
pub open spec fn position_after_spec(
    map: GridMap,
    px: int,
    py: int,
    pitch: int,
    speed: int,
    key: KeyCode,
) -> (int, int) {
    match key {
        KeyCode::Forward | KeyCode::Right | KeyCode::Back | KeyCode::Left => move_spec(
            map,
            px,
            py,
            movement_pitch_spec(pitch, key),
            speed,
        ),
        _ => (px, py),
    }
}

/// The player heading after one tick's input: rotation keys turn it one
/// step, no key at all leaves it untouched, and any other key only
/// renormalizes it.
pub open spec fn pitch_after_spec(pitch: int, key: KeyCode) -> int {
    match key {
        KeyCode::Up => pitch,
        KeyCode::RotateRight => normalize_angle_spec(pitch + PLAYER_ROTATION_SPEED),
        KeyCode::RotateLeft => normalize_angle_spec(pitch - PLAYER_ROTATION_SPEED),
        _ => normalize_angle_spec(pitch),
    }
}

impl Game {
    /// Map, player and camera are all well formed and within the ranges
    /// the fixed-point arithmetic expects.
    pub open spec fn wf(self) -> bool {
        &&& self.current_map.wf()
        &&& wf_vec2_fx(self.main_player.position)
        &&& 0 <= self.main_player.pitch <= TWO_PI
        &&& 0 < self.main_player.movement_speed
        &&& in_fx_range(self.main_player.movement_speed as int)
        &&& 0 <= self.camera.max_visible_distance <= 100_000
        &&& 0 < self.camera.fov <= 360_000_000
    }

    /// The grid cell holding `pos`.
    pub fn calculate_current_square(&self, pos: Vec2<i64>) -> (r: Vec2<i64>)
        requires
            self.current_map.wf(),
        ensures
            r.x == square_of_spec(self.current_map, pos.x as int, pos.y as int).0,
            r.y == square_of_spec(self.current_map, pos.x as int, pos.y as int).1,
    {
        Vec2 {
            x: floor_div(pos.x, self.current_map.square_width),
            y: floor_div(pos.y, self.current_map.square_width),
        }
    }

    /// The starting state: a walled 10 by 10 map with a few interior
    /// walls, the player at an interior point looking slightly off the
    /// x-axis, and a 90 degree field of view reaching 15 cells.
    pub fn new() -> (r: Game)
        ensures
            r.wf(),
            r.ticks_ms == 0,
            r.main_player.position.x == 50_000_000,
            r.main_player.position.y == 70_000_000,
            r.main_player.pitch == 199_662,
            r.main_player.movement_speed == 2_500_000,
            r.current_map.square_width == 25_000_000,
            r.current_map.topography_x == 10,
            r.current_map.topography_y == 10,
            r.camera.max_visible_distance == 15,
            r.camera.fov == 90_000_000,
    {
        let rows: [i32; 100] = [
            1, 1, 1, 1, 1, 1, 1, 1, 1, 1,
            1, 0, 0, 0, 0, 0, 0, 0, 0, 1,
            1, 0, 0, 1, 1, 0, 0, 0, 0, 1,
            1, 0, 0, 0, 0, 0, 0, 0, 0, 1,
            1, 0, 0, 0, 0, 0, 0, 0, 0, 1,
            1, 0, 0, 0, 0, 0, 0, 1, 0, 1,
            1, 0, 0, 0, 0, 0, 0, 1, 1, 1,
            1, 0, 0, 0, 0, 0, 0, 1, 0, 0,
            1, 0, 0, 0, 0, 0, 0, 1, 0, 0,
            1, 1, 1, 1, 1, 1, 1, 1, 0, 0,
        ];
        let mut topography: Vec<i32> = Vec::new();
        let mut i: usize = 0;
        while i < 100
            invariant
                i <= 100,
                topography@.len() == i,
            decreases 100 - i,
        {
            topography.push(rows[i]);
            i += 1;
        }
        let new_map = GridMap {
            topography,
            topography_x: 10,
            topography_y: 10,
            square_width: 25_000_000,
        };
        let new_main_player = Actor {
            position: Vec2 { x: 50_000_000, y: 70_000_000 },
            // 11.44 degrees of heading, in fixed-point radians.
            pitch: 199_662,
            movement_speed: 2_500_000,
        };
        let new_camera = Camera { max_visible_distance: 15, fov: 90_000_000 };
        Game {
            ticks_ms: 0,
            current_map: new_map,
            main_player: new_main_player,
            camera: new_camera,
        }
    }

    /// One tick: advance the tick timestamp when a full tick has elapsed
    /// (the elapsed check gates only the timestamp — movement and rotation
    /// are applied on every call), apply the input key to the player, then
    /// compose the scene into the renderer's back buffer.
    pub fn update(&mut self, output: &mut Renderer, input: KeyCode, mode: ViewMode, now_ms: u64)
        requires
            old(self).wf(),
            old(output).wf(),
            now_ms >= old(self).ticks_ms,
        ensures
            final(self).wf(),
            final(self).current_map == old(self).current_map,
            final(self).camera == old(self).camera,
            final(self).main_player.movement_speed == old(self).main_player.movement_speed,
            final(self).ticks_ms == if (now_ms - old(self).ticks_ms) / (TICK_DURATION_MS as int)
                >= 1 {
                now_ms
            } else {
                old(self).ticks_ms
            },
            ({
                let (nx, ny) = position_after_spec(
                    old(self).current_map,
                    old(self).main_player.position.x as int,
                    old(self).main_player.position.y as int,
                    old(self).main_player.pitch as int,
                    old(self).main_player.movement_speed as int,
                    input,
                );
                final(self).main_player.position.x == nx && final(self).main_player.position.y
                    == ny
            }),
            final(self).main_player.pitch == pitch_after_spec(
                old(self).main_player.pitch as int,
                input,
            ),
            final(output).wf(),
            final(output).screen_dimensions == old(output).screen_dimensions,
            final(output).front == old(output).front,
            final(output).back@.len() == old(output).back@.len(),
            final(output).back@ == scene_spec(
                *final(self),
                old(output).screen_dimensions,
                mode,
                old(output).back@,
            ),
    {
        let dt = (now_ms - self.ticks_ms) / TICK_DURATION_MS;
        if dt >= 1 {
            self.ticks_ms = now_ms;
        }

        match input {
            KeyCode::Up => {},
            _ => {
                match input {
                    KeyCode::Forward => {
                        let pitch = self.main_player.pitch;
                        self.main_player.position = move_with_collision(
                            &self.current_map,
                            self.main_player.position,
                            pitch,
                            self.main_player.movement_speed,
                        );
                    },
                    KeyCode::Right => {
                        let pitch = normalize_angle(self.main_player.pitch + HALF_PI);
                        self.main_player.position = move_with_collision(
                            &self.current_map,
                            self.main_player.position,
                            pitch,
                            self.main_player.movement_speed,
                        );
                    },
                    KeyCode::Back => {
                        let pitch = normalize_angle(self.main_player.pitch + PI_FX);
                        self.main_player.position = move_with_collision(
                            &self.current_map,
                            self.main_player.position,
                            pitch,
                            self.main_player.movement_speed,
                        );
                    },
                    KeyCode::Left => {
                        let pitch = normalize_angle(self.main_player.pitch + PI_FX + HALF_PI);
                        self.main_player.position = move_with_collision(
                            &self.current_map,
                            self.main_player.position,
                            pitch,
                            self.main_player.movement_speed,
                        );
                    },
                    KeyCode::RotateRight => {
                        self.main_player.pitch = self.main_player.pitch + PLAYER_ROTATION_SPEED;
                    },
                    KeyCode::RotateLeft => {
                        self.main_player.pitch = self.main_player.pitch - PLAYER_ROTATION_SPEED;
                    },
                    _ => {},
                }
                self.main_player.pitch = normalize_angle(self.main_player.pitch);
            },
        }

        self.calculate_and_draw(output, mode);
    }

    /// Compose the scene: sweep one ray per field-of-view degree, and turn
    /// each hit into draw calls — a top-down ray line in 2D, a vertical
    /// wall slab whose height shrinks with distance in 3D, or both —
    /// shaded by which boundary axis the ray struck.
    fn calculate_and_draw(&self, output: &mut Renderer, mode: ViewMode)
        requires
            self.wf(),
            old(output).wf(),
        ensures
            final(output).wf(),
            final(output).screen_dimensions == old(output).screen_dimensions,
            final(output).front == old(output).front,
            final(output).back@.len() == old(output).back@.len(),
            final(output).back@ == scene_spec(
                *self,
                old(output).screen_dimensions,
                mode,
                old(output).back@,
            ),
    {
        let dims = output.get_screen_dim();
        let mut current_ray_pitch = fx_sub(
            self.main_player.pitch,
            fx_mul(fx_half(self.camera.fov), RADIAN),
        );
        let mut ray_line: i64 = 0;
        let dx = fx_div(int_to_fx(dims.x as i64), self.camera.fov);
        let dy = fx_div(
            int_to_fx(dims.y as i64),
            fx_mul(int_to_fx(self.camera.max_visible_distance as i64), self.current_map.square_width),
        );
        let mut which_axis = Axis::OnX;

        let fov_cols = fx_trunc(self.camera.fov);
        let mut col: i64 = 0;

        let ghost map = self.current_map;
        let ghost ppx: int = self.main_player.position.x as int;
        let ghost ppy: int = self.main_player.position.y as int;
        let ghost maxd: nat = self.camera.max_visible_distance as nat;
        let ghost dxg: int = dx as int;
        let ghost dyg: int = dy as int;
        let ghost target: Seq<u8> = scene_fold(
            map,
            ppx,
            ppy,
            maxd,
            dims,
            mode,
            dxg,
            dyg,
            old(output).back@,
            current_ray_pitch as int,
            0,
            Axis::OnX,
            0,
            fov_cols as int,
        );

        while col < fov_cols
            invariant
                self.wf(),
                output.wf(),
                output.screen_dimensions == old(output).screen_dimensions,
                output.front == old(output).front,
                output.back@.len() == old(output).back@.len(),
                dims == output.screen_dimensions,
                0 <= col <= fov_cols <= 360,
                in_fx_range(current_ray_pitch as int),
                in_fx_range(ray_line as int),
                in_fx_range(dx as int),
                in_fx_range(dy as int),
                map == self.current_map,
                ppx == self.main_player.position.x as int,
                ppy == self.main_player.position.y as int,
                maxd == self.camera.max_visible_distance as nat,
                dxg == dx as int,
                dyg == dy as int,
                scene_fold(
                    map,
                    ppx,
                    ppy,
                    maxd,
                    dims,
                    mode,
                    dxg,
                    dyg,
                    output.back@,
                    current_ray_pitch as int,
                    ray_line as int,
                    which_axis,
                    col as int,
                    fov_cols as int,
                ) == target,
            decreases fov_cols - col,
        {
            let ghost back_pre = output.back@;
            let ghost crp_pre: int = current_ray_pitch as int;
            let ghost rl_pre: int = ray_line as int;
            let ghost axis_pre = which_axis;

            current_ray_pitch = normalize_angle(current_ray_pitch);
            let swept = sweep_ray(
                &self.current_map,
                self.main_player.position,
                current_ray_pitch,
                which_axis,
                self.camera.max_visible_distance,
            );
            let current_ray_pos = swept.0;
            which_axis = swept.1;

            ray_line = fx_add(ray_line, dx);
            current_ray_pitch = current_ray_pitch + RADIAN;

            let ghost stepv = column_spec(
                map,
                ppx,
                ppy,
                maxd,
                dims,
                mode,
                dxg,
                dyg,
                back_pre,
                crp_pre,
                rl_pre,
                axis_pre,
            );

            match mode {
                ViewMode::Mode2d => {
                    let glyph = match which_axis {
                        Axis::OnX => BLACK_BOX_CHAR,
                        Axis::OnY => STRIP_BOX_CHAR,
                    };
                    output.draw_line(self.main_player.position, current_ray_pos, glyph);
                    assert(stepv.0 == output.back@);
                },
                ViewMode::Mode3d => {
                    let ray_distance = fx_ceil_units(
                        points_distance(self.main_player.position, current_ray_pos),
                    );
                    let slab = fx_mul(ray_distance, dy);
                    let cols_inner = fx_trunc(dx) + 1;
                    let glyph = match which_axis {
                        Axis::OnX => BLACK_BOX_CHAR,
                        Axis::OnY => STRIP_BOX_CHAR,
                    };
                    let ghost back_arm = output.back@;
                    let mut i: i64 = 0;
                    while i < cols_inner
                        invariant
                            self.wf(),
                            output.wf(),
                            output.screen_dimensions == old(output).screen_dimensions,
                            output.front == old(output).front,
                            output.back@.len() == old(output).back@.len(),
                            dims == output.screen_dimensions,
                            0 <= i <= 140_737_489,
                            cols_inner <= 140_737_489,
                            in_fx_range(ray_line as int),
                            in_fx_range(slab as int),
                            slab3d_fold(
                                output.back@,
                                dims,
                                ray_line as int,
                                slab as int,
                                glyph,
                                i as int,
                                cols_inner as int,
                            ) == slab3d_fold(
                                back_arm,
                                dims,
                                ray_line as int,
                                slab as int,
                                glyph,
                                0,
                                cols_inner as int,
                            ),
                        decreases cols_inner - i,
                    {
                        let colx = fx_add(ray_line, int_to_fx(i));
                        let up = Vec2 { x: colx, y: fx_mul(slab, 1_200_000) };
                        let down = Vec2 {
                            x: colx,
                            y: fx_mul(1_800_000, fx_sub(int_to_fx(dims.y as i64), slab)),
                        };
                        if up.y > down.y {
                            i = cols_inner;
                        } else {
                            output.draw_line(up, down, glyph);
                            i += 1;
                        }
                    }
                    assert(stepv.0 == output.back@);
                },
                ViewMode::Mode2dAnd3d => {
                    let ray_distance = fx_ceil_units(
                        points_distance(self.main_player.position, current_ray_pos),
                    );
                    let slab = fx_mul(ray_distance, dy);
                    let cols_inner = fx_trunc(dx) + 1;
                    let glyph = match which_axis {
                        Axis::OnX => BLACK_BOX_CHAR,
                        Axis::OnY => STRIP_BOX_CHAR,
                    };
                    let ghost back_arm = output.back@;
                    let mut i: i64 = 0;
                    while i < cols_inner
                        invariant
                            self.wf(),
                            output.wf(),
                            output.screen_dimensions == old(output).screen_dimensions,
                            output.front == old(output).front,
                            output.back@.len() == old(output).back@.len(),
                            dims == output.screen_dimensions,
                            0 <= i <= 140_737_489,
                            cols_inner <= 140_737_489,
                            in_fx_range(ray_line as int),
                            in_fx_range(slab as int),
                            wf_vec2_fx(current_ray_pos),
                            wf_vec2_fx(self.main_player.position),
                            combined_fold(
                                output.back@,
                                dims,
                                ray_line as int,
                                slab as int,
                                self.main_player.position.x as int,
                                self.main_player.position.y as int,
                                current_ray_pos.x as int,
                                current_ray_pos.y as int,
                                glyph,
                                i as int,
                                cols_inner as int,
                            ) == combined_fold(
                                back_arm,
                                dims,
                                ray_line as int,
                                slab as int,
                                self.main_player.position.x as int,
                                self.main_player.position.y as int,
                                current_ray_pos.x as int,
                                current_ray_pos.y as int,
                                glyph,
                                0,
                                cols_inner as int,
                            ),
                        decreases cols_inner - i,
                    {
                        let colx = fx_add(ray_line, int_to_fx(i));
                        let top = Vec2 { x: colx, y: slab };
                        let bottom = Vec2 {
                            x: colx,
                            y: fx_sub(
                                fx_mul(int_to_fx(dims.y as i64), 1_150_000),
                                slab,
                            ),
                        };
                        output.draw_line(top, bottom, glyph);
                        output.draw_line(self.main_player.position, current_ray_pos, glyph);
                        i += 1;
                    }
                    assert(stepv.0 == output.back@);
                },
            }

            proof {
                assert(stepv.1 == current_ray_pitch as int);
                assert(stepv.2 == ray_line as int);
                assert(stepv.3 == which_axis);
            }
            col += 1;
        }
    }
}

/// Sweep a ray from `origin` along `pitch` through the map: repeatedly
/// cast through the current cell until a blocking cell is reached or
/// `max_steps` cells have been traversed. `axis_in` is carried as the
/// reported axis when the very first cell already blocks.
pub fn sweep_ray(map: &GridMap, origin: Vec2<i64>, pitch: i64, axis_in: Axis, max_steps: i32) -> (r:
    (Vec2<i64>, Axis))
    requires
        map.wf(),
        wf_vec2_fx(origin),
        in_fx_range(pitch as int),
        0 <= max_steps,
    ensures
        ({
            let (px, py, ax) = sweep_spec(
                *map,
                origin.x as int,
                origin.y as int,
                pitch as int,
                axis_in,
                max_steps as nat,
            );
            r.0.x == px && r.0.y == py && r.1 == ax
        }),
        wf_vec2_fx(r.0),
{
    let mut pos = origin;
    let mut axis = axis_in;
    let mut step: i32 = 0;
    while step < max_steps
        invariant
            map.wf(),
            wf_vec2_fx(pos),
            in_fx_range(pitch as int),
            0 <= step <= max_steps,
            sweep_spec(*map, pos.x as int, pos.y as int, pitch as int, axis, (max_steps
                - step) as nat) == sweep_spec(
                *map,
                origin.x as int,
                origin.y as int,
                pitch as int,
                axis_in,
                max_steps as nat,
            ),
        decreases max_steps - step,
    {
        let sw = map.square_width;
        let square = Vec2 { x: floor_div(pos.x, sw), y: floor_div(pos.y, sw) };
        if map.is_wall(square) {
            return (pos, axis);
        }
        proof {
            lemma_fundamental_div_mod(pos.x as int, sw as int);
            lemma_mod_bound(pos.x as int, sw as int);
            lemma_fundamental_div_mod(pos.y as int, sw as int);
            lemma_mod_bound(pos.y as int, sw as int);
            assert(square.x as int * sw as int == sw as int * (pos.x as int / sw as int))
                by (nonlinear_arith)
                requires
                    square.x == pos.x as int / sw as int,
            ;
            assert(square.y as int * sw as int == sw as int * (pos.y as int / sw as int))
                by (nonlinear_arith)
                requires
                    square.y == pos.y as int / sw as int,
            ;
        }
        let top_left = Vec2 { x: square.x * sw, y: square.y * sw };
        let hit = cast_ray(pos, pitch, top_left, sw, sw);
        pos = hit.0;
        axis = hit.1;
        step += 1;
    }
    (pos, axis)
}

/// One movement step with collision, as the per-tick transition uses it.
/// Starting outside a wall, the player can never end up inside one.
pub fn move_with_collision(map: &GridMap, position: Vec2<i64>, pitch: i64, movement_speed: i64) -> (
    r: Vec2<i64>)
    requires
        map.wf(),
        wf_vec2_fx(position),
        in_fx_range(pitch as int),
        0 < movement_speed,
        in_fx_range(movement_speed as int),
    ensures
        ({
            let (nx, ny) = move_spec(
                *map,
                position.x as int,
                position.y as int,
                pitch as int,
                movement_speed as int,
            );
            r.x == nx && r.y == ny
        }),
        wf_vec2_fx(r),
        ({
            let sq = square_of_spec(*map, position.x as int, position.y as int);
            let sqr = square_of_spec(*map, r.x as int, r.y as int);
            !map.is_wall_spec(sq.0, sq.1) ==> !map.is_wall_spec(sqr.0, sqr.1)
        }),
{
    let half = fx_half(movement_speed);
    let top_left = Vec2 { x: fx_sub(position.x, half), y: fx_sub(position.y, half) };
    let hit = cast_ray(position, pitch, top_left, movement_speed, movement_speed);
    let sw = map.square_width;
    let square = Vec2 { x: floor_div(hit.0.x, sw), y: floor_div(hit.0.y, sw) };
    if map.is_wall(square) {
        position
    } else {
        hit.0
    }
}

} // verus!
