//! The game-flow state machine and the per-frame simulation step.
use vstd::prelude::*;
use crate::entity::{Shape, Tint, travel, displacement, lemma_displacement_bound, MAX_FRAME_MICROS, MAX_SPEED, POSITION_LIMIT};
use crate::geometry::{clamp, clamp_spec};
use crate::spawn::{projectile_from, spawn_fits, launch_projectile, roll_obstacle};
use crate::sweep::{
    MAX_BOUND, all_wf, none_marked, falling, rising, struck_by, spent_on, bounty, keeps_obstacle,
    keeps_projectile, fall_all, rise_all, mark_struck, mark_spent, bounty_of, prune_obstacles,
    prune_projectiles, touches_any, lands,
};
use crate::tally::{ScoreBoard, saturating_sum};

verus! {

/// Diameter of the player, in milli-pixels.
pub const PLAYER_SIZE: i64 = 32_000;

/// Speed of the player, in milli-pixels per second.
pub const PLAYER_SPEED: i64 = 200_000;

/// Least time between two shots, in microseconds.
pub const SHOOT_INTERVAL_MICROS: u64 = 500_000;

/// The active mode of the game.
#[derive(Clone, Copy, Debug, PartialEq, Eq, Structural)]
pub enum GamePhase {
    MainMenu,
    Playing,
    Paused,
    GameOver,
}

/// What one frame hands to the simulation: elapsed and current time, the
/// visible bounds, and the player's intents.
#[derive(Clone, Copy, Debug, PartialEq, Eq, Structural)]
pub struct FrameInput {
    /// Time since the previous frame, in microseconds.
    pub dt: u64,
    /// Current time of a monotonic clock, in microseconds.
    pub now: u64,
    /// Visible bounds, in milli-pixels.
    pub width: i64,
    pub height: i64,
    pub up: bool,
    pub down: bool,
    pub left: bool,
    pub right: bool,
    /// The shoot key is held.
    pub fire: bool,
    /// The pause key was pressed this frame.
    pub pause: bool,
    /// The confirm key was pressed this frame.
    pub confirm: bool,
}

impl FrameInput {
    pub open spec fn wf(&self) -> bool {
        self.dt <= MAX_FRAME_MICROS && 0 <= self.width <= MAX_BOUND && 0 <= self.height <= MAX_BOUND
    }
}

/// The whole simulation state, as the contracts see it.
pub struct World {
    pub phase: GamePhase,
    pub player: Shape,
    pub obstacles: Seq<Shape>,
    pub projectiles: Seq<Shape>,
    pub board: ScoreBoard,
    pub last_shot: u64,
}

impl World {
    pub open spec fn wf(&self) -> bool {
        &&& self.player.wf()
        &&& self.player.size == PLAYER_SIZE
        &&& self.player.speed <= MAX_SPEED / 2
        &&& -POSITION_LIMIT / 2 <= self.player.x <= POSITION_LIMIT / 2
        &&& -POSITION_LIMIT / 2 <= self.player.y <= POSITION_LIMIT / 2
        &&& all_wf(self.obstacles)
        &&& none_marked(self.obstacles)
        &&& all_wf(self.projectiles)
        &&& none_marked(self.projectiles)
        &&& self.board.wf()
    }
}

/// The player centered in a `width` by `height` screen.
pub open spec fn centered(p: Shape, width: int, height: int) -> Shape {
    Shape { x: (width / 2) as i64, y: (height / 2) as i64, ..p }
}

/// A fresh round: no entities, no score, the player centered, playing.
pub open spec fn restarted(w: World, width: int, height: int) -> World {
    World {
        phase: GamePhase::Playing,
        player: centered(w.player, width, height),
        obstacles: Seq::empty(),
        projectiles: Seq::empty(),
        board: ScoreBoard { score: 0, ..w.board },
        ..w
    }
}

/// `v` moved by `d` forward when `plus`, backward when `minus`.
pub open spec fn nudged(v: int, d: int, plus: bool, minus: bool) -> int {
    v + (if plus { d } else { 0 }) - (if minus { d } else { 0 })
}

/// The player after following the direction keys for `i.dt`, kept within
/// `[size / 2, bound - size / 2]` on each axis.
pub open spec fn steered(p: Shape, i: FrameInput) -> Shape {
    let d = displacement(p.speed as int, i.dt as int);
    let half = p.size / 2;
    Shape {
        x: clamp_spec(nudged(p.x as int, d, i.right, i.left), half as int, i.width - half) as i64,
        y: clamp_spec(nudged(p.y as int, d, i.down, i.up), half as int, i.height - half) as i64,
        ..p
    }
}

/// The cooldown has passed since the last shot.
pub open spec fn cooled_down(last_shot: u64, now: u64) -> bool {
    now >= last_shot + SHOOT_INTERVAL_MICROS
}

/// Some obstacle overlaps the player.
pub open spec fn player_hit(player: Shape, obstacles: Seq<Shape>) -> bool {
    lands(player, obstacles)
}

/// The board after `gain` points.
pub open spec fn scored(b: ScoreBoard, gain: int) -> ScoreBoard {
    let s = saturating_sum(b.score as int, gain);
    ScoreBoard { score: s as u32, high_score: if s > b.high_score { s as u32 } else { b.high_score } }
}

/// One frame of play: steer, fire, spawn, move, collide, score, prune; then
/// a hit ends the round, else the pause key pauses. On a hit the high score
/// is handed back for storage when the score equals it.
pub open spec fn play(w: World, i: FrameInput, spawned: Option<Shape>) -> (World, Option<u32>) {
    let player = steered(w.player, i);
    let fires = i.fire && cooled_down(w.last_shot, i.now);
    let shots0 = if fires {
        w.projectiles.push(projectile_from(player))
    } else {
        w.projectiles
    };
    let boxes0 = match spawned {
        Some(o) => w.obstacles.push(o),
        None => w.obstacles,
    };
    let boxes1 = boxes0.map_values(falling(i.dt as int));
    let shots1 = shots0.map_values(rising(i.dt as int));
    let hit = player_hit(player, boxes1);
    let boxes2 = boxes1.map_values(struck_by(shots1));
    let shots2 = shots1.map_values(spent_on(boxes2));
    let board = scored(w.board, bounty(boxes2) as int);
    let phase = if hit {
        GamePhase::GameOver
    } else if i.pause {
        GamePhase::Paused
    } else {
        GamePhase::Playing
    };
    let stored = if hit && board.score == board.high_score {
        Some(board.high_score)
    } else {
        None
    };
    (
        World {
            phase,
            player,
            obstacles: boxes2.filter(keeps_obstacle(i.height as int)),
            projectiles: shots2.filter(keeps_projectile()),
            board,
            last_shot: if fires { i.now } else { w.last_shot },
        },
        stored,
    )
}

/// The transition table: phase and input to next state, and the high score
/// to store, if any. Only `Playing` runs the simulation.
pub open spec fn step(w: World, i: FrameInput, spawned: Option<Shape>) -> (World, Option<u32>) {
    match w.phase {
        GamePhase::MainMenu => if i.confirm {
            (restarted(w, i.width as int, i.height as int), None)
        } else {
            (w, None)
        },
        GamePhase::Playing => play(w, i, spawned),
        GamePhase::Paused => if i.confirm {
            (World { phase: GamePhase::Playing, ..w }, None)
        } else {
            (w, None)
        },
        GamePhase::GameOver => if i.confirm {
            (World { phase: GamePhase::MainMenu, ..w }, None)
        } else {
            (w, None)
        },
    }
}

/// Every obstacle lies above `height + size`: it would have been pruned.
pub open spec fn obstacles_above(w: World, height: int) -> bool {
    forall|k: int| 0 <= k < w.obstacles.len() ==> (#[trigger] w.obstacles[k]).y < height + w.obstacles[k].size
}

/// Within a round the score never drops; leaving the menu for a round
/// resets it to zero, and the menu otherwise leaves it alone.
pub open spec fn score_progresses(before: World, after: World) -> bool {
    if before.phase == GamePhase::MainMenu {
        if after.phase == GamePhase::Playing {
            after.board.score == 0
        } else {
            after.board.score == before.board.score
        }
    } else {
        after.board.score >= before.board.score
    }
}

/// The high score never drops and is never below the score.
pub open spec fn high_score_holds(before: World, after: World) -> bool {
    after.board.high_score >= before.board.high_score && after.board.high_score >= after.board.score
}

/// In any frame the score never drops within a round and goes back to zero
/// only when a round starts from the menu; the high score never drops and
/// stays at least the score.
pub proof fn lemma_frame_score_laws(w: World, i: FrameInput, spawned: Option<Shape>)
    requires
        w.wf(),
    ensures
        score_progresses(w, step(w, i, spawned).0),
        high_score_holds(w, step(w, i, spawned).0),
{
}

/// A frame hands back a high score for storage exactly when it ends a round
/// in play with the score equal to the high score, and what it hands back is
/// that high score. Frames in any other phase store nothing.
pub proof fn lemma_store_on_record_elimination(w: World, i: FrameInput, spawned: Option<Shape>)
    ensures
        step(w, i, spawned).1 is Some <==> (w.phase == GamePhase::Playing && step(w, i, spawned).0.phase
            == GamePhase::GameOver && step(w, i, spawned).0.board.score == step(
            w,
            i,
            spawned,
        ).0.board.high_score),
        step(w, i, spawned).1 matches Some(h) ==> h == step(w, i, spawned).0.board.high_score,
        w.phase != GamePhase::Playing ==> step(w, i, spawned).1 is None,
{
}

/// Entering a fresh round twice in a row leaves the state of entering it once.
pub proof fn lemma_restart_idempotent(w: World, width: int, height: int)
    ensures
        restarted(restarted(w, width, height), width, height) == restarted(w, width, height),
{
}

/// The simulation state: phase, player, obstacles, projectiles, score board
/// and the time of the last shot.
pub struct Game {
    phase: GamePhase,
    player: Shape,
    obstacles: Vec<Shape>,
    projectiles: Vec<Shape>,
    board: ScoreBoard,
    last_shot: u64,
}

impl View for Game {
    type V = World;

    closed spec fn view(&self) -> World {
        World {
            phase: self.phase,
            player: self.player,
            obstacles: self.obstacles@,
            projectiles: self.projectiles@,
            board: self.board,
            last_shot: self.last_shot,
        }
    }
}

impl Game {
    pub open spec fn wf(&self) -> bool {
        self@.wf()
    }

    /// A game in the main menu, with the player centered in a `width` by
    /// `height` screen and the high score loaded from storage.
    pub fn new(high_score: u32, width: i64, height: i64) -> (r: Game)
        requires
            0 <= width <= MAX_BOUND,
            0 <= height <= MAX_BOUND,
        ensures
            r.wf(),
            r@.phase == GamePhase::MainMenu,
            r@.player == (Shape {
                size: PLAYER_SIZE,
                speed: PLAYER_SPEED,
                x: (width / 2) as i64,
                y: (height / 2) as i64,
                color: Tint::Yellow,
                collided: false,
            }),
            r@.obstacles.len() == 0,
            r@.projectiles.len() == 0,
            r@.board == (ScoreBoard { score: 0, high_score }),
            r@.last_shot == 0,
    {
        Game {
            phase: GamePhase::MainMenu,
            player: Shape {
                size: PLAYER_SIZE,
                speed: PLAYER_SPEED,
                x: width / 2,
                y: height / 2,
                color: Tint::Yellow,
                collided: false,
            },
            obstacles: Vec::new(),
            projectiles: Vec::new(),
            board: ScoreBoard::new(high_score),
            last_shot: 0,
        }
    }

    /// Starts a fresh round: clears the entities and the score, centers the
    /// player in a `width` by `height` screen and enters `Playing`.
    pub fn start(&mut self, width: i64, height: i64)
        requires
            old(self).wf(),
            0 <= width <= MAX_BOUND,
            0 <= height <= MAX_BOUND,
        ensures
            final(self).wf(),
            final(self)@ == restarted(old(self)@, width as int, height as int),
    {
        self.player.x = width / 2;
        self.player.y = height / 2;
        self.board.reset_score();
        self.clear_all();
        self.phase = GamePhase::Playing;
        assert(self.obstacles@ =~= Seq::<Shape>::empty());
        assert(self.projectiles@ =~= Seq::<Shape>::empty());
    }

    /// Removes every obstacle and projectile.
    pub fn clear_all(&mut self)
        ensures
            final(self)@ == (World { obstacles: Seq::empty(), projectiles: Seq::empty(), ..old(self)@ }),
    {
        self.obstacles.clear();
        self.projectiles.clear();
        assert(self.obstacles@ =~= Seq::<Shape>::empty());
        assert(self.projectiles@ =~= Seq::<Shape>::empty());
    }

    /// Adds an obstacle to the store.
    pub fn insert_obstacle(&mut self, o: Shape)
        requires
            old(self).wf(),
            o.wf(),
            !o.collided,
        ensures
            final(self).wf(),
            final(self)@ == (World { obstacles: old(self)@.obstacles.push(o), ..old(self)@ }),
    {
        self.obstacles.push(o);
    }

    /// Adds a projectile to the store.
    pub fn insert_projectile(&mut self, p: Shape)
        requires
            old(self).wf(),
            p.wf(),
            !p.collided,
        ensures
            final(self).wf(),
            final(self)@ == (World { projectiles: old(self)@.projectiles.push(p), ..old(self)@ }),
    {
        self.projectiles.push(p);
    }

    /// Runs one frame with `spawned` as this frame's new obstacle, if any,
    /// and returns the high score to store, if the frame calls for it.
    pub fn advance(&mut self, input: &FrameInput, spawned: Option<Shape>) -> (stored: Option<u32>)
        requires
            old(self).wf(),
            input.wf(),
            spawn_fits(spawned, input.width as int),
        ensures
            final(self).wf(),
            (final(self)@, stored) == step(old(self)@, *input, spawned),
            old(self)@.phase == GamePhase::Playing ==> obstacles_above(final(self)@, input.height as int),
            score_progresses(old(self)@, final(self)@),
            high_score_holds(old(self)@, final(self)@),
    {
        match self.phase {
            GamePhase::MainMenu => {
                if input.confirm {
                    self.start(input.width, input.height);
                }
                None
            },
            GamePhase::Playing => self.play(input, spawned),
            GamePhase::Paused => {
                if input.confirm {
                    self.phase = GamePhase::Playing;
                }
                None
            },
            GamePhase::GameOver => {
                if input.confirm {
                    self.phase = GamePhase::MainMenu;
                }
                None
            },
        }
    }

    /// Runs one frame, drawing at random whether an obstacle spawns in it,
    /// and returns the high score to store, if the frame calls for it.
    pub fn frame(&mut self, input: &FrameInput) -> (stored: Option<u32>)
        requires
            old(self).wf(),
            input.wf(),
        ensures
            final(self).wf(),
            exists|s: Option<Shape>|
                spawn_fits(s, input.width as int) && (final(self)@, stored) == #[trigger] step(
                    old(self)@,
                    *input,
                    s,
                ),
            old(self)@.phase == GamePhase::Playing ==> obstacles_above(final(self)@, input.height as int),
            score_progresses(old(self)@, final(self)@),
            high_score_holds(old(self)@, final(self)@),
    {
        let spawned = if self.phase == GamePhase::Playing {
            roll_obstacle(input.width)
        } else {
            None
        };
        self.advance(input, spawned)
    }

    pub fn phase(&self) -> (r: GamePhase)
        ensures
            r == self@.phase,
    {
        self.phase
    }

    pub fn player(&self) -> (r: Shape)
        ensures
            r == self@.player,
    {
        self.player
    }

    pub fn obstacles(&self) -> (r: &Vec<Shape>)
        ensures
            r@ == self@.obstacles,
    {
        &self.obstacles
    }

    pub fn projectiles(&self) -> (r: &Vec<Shape>)
        ensures
            r@ == self@.projectiles,
    {
        &self.projectiles
    }

    pub fn score(&self) -> (r: u32)
        ensures
            r == self@.board.score,
    {
        self.board.current_score()
    }

    pub fn high_score(&self) -> (r: u32)
        ensures
            r == self@.board.high_score,
    {
        self.board.high_score()
    }

    /// One frame in `Playing`; see `play` for what it does.
    #[verifier::rlimit(50)]
    fn play(&mut self, input: &FrameInput, spawned: Option<Shape>) -> (stored: Option<u32>)
        requires
            old(self).wf(),
            old(self)@.phase == GamePhase::Playing,
            input.wf(),
            spawn_fits(spawned, input.width as int),
        ensures
            final(self).wf(),
            (final(self)@, stored) == play(old(self)@, *input, spawned),
            obstacles_above(final(self)@, input.height as int),
    {
        let ghost w = self@;
        let d = travel(self.player.speed, input.dt);
        let half = self.player.size / 2;
        let mut x = self.player.x;
        let mut y = self.player.y;
        if input.right {
            x = x + d;
        }
        if input.left {
            x = x - d;
        }
        if input.down {
            y = y + d;
        }
        if input.up {
            y = y - d;
        }
        self.player.x = clamp(x, half, input.width - half);
        self.player.y = clamp(y, half, input.height - half);
        assert(self.player == steered(w.player, *input));

        let fires = input.fire && input.now >= self.last_shot && input.now - self.last_shot
            >= SHOOT_INTERVAL_MICROS;
        if fires {
            let p = launch_projectile(&self.player);
            self.projectiles.push(p);
            self.last_shot = input.now;
        }
        match spawned {
            Some(o) => self.obstacles.push(o),
            None => {},
        }
        let ghost boxes0 = self.obstacles@;
        let ghost shots0 = self.projectiles@;
        assert(all_wf(boxes0));
        assert(all_wf(shots0));

        fall_all(&mut self.obstacles, input.dt);
        rise_all(&mut self.projectiles, input.dt);
        let ghost boxes1 = self.obstacles@;
        let ghost shots1 = self.projectiles@;
        let hit = touches_any(&self.player, &self.obstacles);
        mark_struck(&mut self.obstacles, &self.projectiles);
        mark_spent(&mut self.projectiles, &self.obstacles);
        assert(self.obstacles@ == boxes1.map_values(struck_by(shots1)));
        let ghost boxes_marked = self.obstacles@;
        assert(self.projectiles@ == shots1.map_values(spent_on(boxes_marked)));
        let gain = bounty_of(&self.obstacles);
        self.board.add_score(gain);

        let ghost boxes2 = self.obstacles@;
        let ghost shots2 = self.projectiles@;
        assert forall|k: int| 0 <= k < boxes2.len() implies (#[trigger] boxes2[k]).in_flight()
            && boxes2[k].y >= -POSITION_LIMIT && -POSITION_LIMIT <= boxes2[k].x <= POSITION_LIMIT by {
            assert(boxes2[k] == (struck_by(shots1))(boxes1[k]));
            assert(boxes1[k] == boxes0[k].fallen(input.dt as int));
            assert(boxes0[k].wf());
            lemma_displacement_bound(boxes0[k].speed as int, input.dt as int);
        }
        assert forall|k: int| 0 <= k < shots2.len() implies (#[trigger] shots2[k]).in_flight()
            && shots2[k].y <= POSITION_LIMIT && -POSITION_LIMIT <= shots2[k].x <= POSITION_LIMIT by {
            assert(shots2[k] == (spent_on(boxes2))(shots1[k]));
            assert(shots1[k] == shots0[k].risen(input.dt as int));
            assert(shots0[k].wf());
            lemma_displacement_bound(shots0[k].speed as int, input.dt as int);
        }
        self.obstacles = prune_obstacles(&self.obstacles, input.height);
        self.projectiles = prune_projectiles(&self.projectiles);
        self.phase = if hit {
            GamePhase::GameOver
        } else if input.pause {
            GamePhase::Paused
        } else {
            GamePhase::Playing
        };
        if hit && self.board.is_record() {
            Some(self.board.high_score())
        } else {
            None
        }
    }
}

} // verus!
