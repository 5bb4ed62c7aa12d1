//! The obstacle: a wall across the screen with one passage in it.

use crate::config::{GAP_HIGH, GAP_LOW, MAX_SIZE, MIN_SIZE, SCREEN_HEIGHT, SCREEN_WIDTH};
use crate::display::{Color, Draw};
use crate::player::{Player, PlayerView};
use crate::random::{draw_seeded, seeded_range};
use vstd::prelude::*;

verus! {

/// The obstacle as a mathematical value.
pub struct ObstacleView {
    /// World column of the wall.
    pub x: int,
    /// Row at the centre of the passage.
    pub gap_y: int,
    /// Half-height of the passage.
    pub size: int,
}

impl ObstacleView {
    /// The half-height of the passage at a score: it shrinks by one with each
    /// point and stops at the floor.
    pub open spec fn size_for(score: int) -> int {
        if MAX_SIZE - score < MIN_SIZE {
            MIN_SIZE as int
        } else {
            MAX_SIZE - score
        }
    }

    /// The half-height at this score is representable.
    pub open spec fn size_fits(score: int) -> bool {
        MAX_SIZE - score <= i32::MAX
    }

    /// The seed that a column gives: the column read as an unsigned number.
    pub open spec fn seed(x: i32) -> u64 {
        x as u64
    }

    /// The obstacle of column `x` at `score` whose passage is centred on `gap_y`.
    pub open spec fn with_gap(x: int, score: int, gap_y: int) -> ObstacleView {
        ObstacleView { x, gap_y, size: Self::size_for(score) }
    }

    /// The obstacle of column `x` at `score`: the centre of its passage is the
    /// first draw of a generator seeded with the column.
    pub open spec fn spawned(x: i32, score: int) -> ObstacleView {
        Self::with_gap(x as int, score, seeded_range(Self::seed(x), GAP_LOW, GAP_HIGH) as int)
    }

    /// The passage is at least as wide as the floor allows.
    pub open spec fn wf(self) -> bool {
        self.size >= MIN_SIZE
    }

    /// First row of the passage.
    pub open spec fn top(self) -> int {
        self.gap_y - self.size
    }

    /// Last row of the passage.
    pub open spec fn bottom(self) -> int {
        self.gap_y + self.size
    }

    /// The player is in the obstacle's column and in a row outside the passage.
    /// Both ends of the passage belong to it.
    pub open spec fn hits(self, player: PlayerView) -> bool {
        &&& self.x - player.x == 0
        &&& (player.row() < self.top() || player.row() > self.bottom())
    }

    /// Screen column of the wall for a player in world column `player_x`.
    pub open spec fn screen_x(self, player_x: int) -> int {
        self.x - player_x
    }

    /// The wall is in one of the columns of the screen.
    pub open spec fn visible(self, player_x: int) -> bool {
        0 <= self.screen_x(player_x) < SCREEN_WIDTH
    }

    /// Rows of the screen above the passage: those before `top`.
    pub open spec fn upper_rows(self) -> int {
        if self.top() < 0 {
            0
        } else if self.top() > SCREEN_HEIGHT {
            SCREEN_HEIGHT as int
        } else {
            self.top()
        }
    }

    /// First row of the screen below the passage: the one after `bottom`.
    pub open spec fn lower_start(self) -> int {
        if self.bottom() + 1 < 0 {
            0
        } else if self.bottom() + 1 > SCREEN_HEIGHT {
            SCREEN_HEIGHT as int
        } else {
            self.bottom() + 1
        }
    }

    /// One cell of wall.
    pub open spec fn brick(column: int, row: int) -> Draw {
        Draw::Glyph {
            column: column as i32,
            row: row as i32,
            glyph: '|',
            fg: Color::Red,
            bg: Color::Black,
        }
    }

    /// The wall as seen by a player in world column `player_x`: nothing when
    /// the obstacle is off screen, else one brick in every row of the screen
    /// above the passage, top down, then one in every row below it.
    pub open spec fn walls(self, player_x: int) -> Seq<Draw> {
        if self.visible(player_x) {
            let column = self.screen_x(player_x);
            let start = self.lower_start();
            Seq::new(self.upper_rows() as nat, |row: int| Self::brick(column, row)) + Seq::new(
                (SCREEN_HEIGHT - start) as nat,
                |i: int| Self::brick(column, start + i),
            )
        } else {
            Seq::empty()
        }
    }
}

/// A wall in a fixed world column with a passage through it.
#[derive(Clone, Copy, Debug)]
pub struct Obstacle {
    x: i32,
    gap_y: i32,
    size: i32,
}

impl View for Obstacle {
    type V = ObstacleView;

    closed spec fn view(&self) -> ObstacleView {
        ObstacleView { x: self.x as int, gap_y: self.gap_y as int, size: self.size as int }
    }
}

impl Obstacle {
    #[verifier::type_invariant]
    spec fn inv(self) -> bool {
        self@.wf()
    }

    /// The obstacle of column `x` at `score`, its passage placed by the
    /// generator that the column seeds.
    pub fn new(x: i32, score: i32) -> (obstacle: Obstacle)
        requires
            ObstacleView::size_fits(score as int),
        ensures
            obstacle@ == ObstacleView::spawned(x, score as int),
            obstacle@.wf(),
            GAP_LOW <= obstacle@.gap_y < GAP_HIGH,
    {
        let gap_y: i32 = draw_seeded(x as u64, GAP_LOW, GAP_HIGH);
        Obstacle::with_gap(x, score, gap_y)
    }

    /// The obstacle of column `x` at `score` with its passage centred on `gap_y`.
    pub fn with_gap(x: i32, score: i32, gap_y: i32) -> (obstacle: Obstacle)
        requires
            ObstacleView::size_fits(score as int),
        ensures
            obstacle@ == ObstacleView::with_gap(x as int, score as int, gap_y as int),
            obstacle@.wf(),
    {
        let shrunk: i32 = MAX_SIZE - score;
        let size: i32 = if shrunk < MIN_SIZE {
            MIN_SIZE
        } else {
            shrunk
        };
        Obstacle { x, gap_y, size }
    }

    /// The obstacle's world column.
    pub fn x_pos(&self) -> (x: i32)
        ensures
            x == self@.x,
    {
        self.x
    }

    /// Row at the centre of the passage.
    pub fn gap_y(&self) -> (gap_y: i32)
        ensures
            gap_y == self@.gap_y,
    {
        self.gap_y
    }

    /// Half-height of the passage.
    pub fn size(&self) -> (size: i32)
        ensures
            size == self@.size,
    {
        self.size
    }

    /// Whether the player has run into the wall.
    pub fn hit_obstacle(&self, player: &Player) -> (hit: bool)
        ensures
            hit == self@.hits(player@),
            hit <==> player@.x == self@.x && !(self@.top() <= player@.row() <= self@.bottom()),
    {
        let row: i64 = player.y_pos() as i64;
        let top: i64 = self.gap_y as i64 - self.size as i64;
        let bottom: i64 = self.gap_y as i64 + self.size as i64;
        self.x == player.x_pos() && (row < top || row > bottom)
    }

    /// The bricks to draw for a player in world column `player_x`.
    pub fn render(&self, player_x: i32) -> (draws: Vec<Draw>)
        ensures
            draws@ == self@.walls(player_x as int),
    {
        let mut draws: Vec<Draw> = Vec::new();
        let screen_x: i64 = self.x as i64 - player_x as i64;
        if screen_x < 0 || screen_x >= SCREEN_WIDTH as i64 {
            return draws;
        }
        let column: i32 = screen_x as i32;
        let top: i64 = self.gap_y as i64 - self.size as i64;
        let bottom: i64 = self.gap_y as i64 + self.size as i64;
        let upper_rows: i32 = if top < 0 {
            0
        } else if top > SCREEN_HEIGHT as i64 {
            SCREEN_HEIGHT
        } else {
            top as i32
        };
        let lower_start: i32 = if bottom + 1 < 0 {
            0
        } else if bottom + 1 > SCREEN_HEIGHT as i64 {
            SCREEN_HEIGHT
        } else {
            (bottom + 1) as i32
        };
        let ghost upper = Seq::new(
            upper_rows as nat,
            |row: int| ObstacleView::brick(column as int, row),
        );
        let mut row: i32 = 0;
        while row < upper_rows
            invariant
                0 <= row <= upper_rows <= SCREEN_HEIGHT,
                draws@ == Seq::new(row as nat, |r: int| ObstacleView::brick(column as int, r)),
            decreases upper_rows - row,
        {
            draws.push(Draw::Glyph { column, row, glyph: '|', fg: Color::Red, bg: Color::Black });
            row = row + 1;
        }
        row = lower_start;
        while row < SCREEN_HEIGHT
            invariant
                0 <= lower_start <= row <= SCREEN_HEIGHT,
                draws@ == upper + Seq::new(
                    (row - lower_start) as nat,
                    |i: int| ObstacleView::brick(column as int, lower_start + i),
                ),
            decreases SCREEN_HEIGHT - row,
        {
            draws.push(Draw::Glyph { column, row, glyph: '|', fg: Color::Red, bg: Color::Black });
            row = row + 1;
        }
        draws
    }
}

/// The passage never widens as the score grows, never gets narrower than the
/// floor, and from score zero on is never wider than at score zero.
pub proof fn size_shrinks_with_score(lower: int, higher: int)
    requires
        lower <= higher,
    ensures
        ObstacleView::size_for(higher) <= ObstacleView::size_for(lower),
        ObstacleView::size_for(higher) >= MIN_SIZE,
        0 <= lower ==> ObstacleView::size_for(lower) <= MAX_SIZE,
        ObstacleView::size_for(0) == MAX_SIZE,
{
}

/// In the obstacle's column the bricks are where the collisions are: a player
/// in a row of the screen hits the obstacle exactly if a brick is drawn in its
/// cell.
pub proof fn bricks_mark_collisions(obstacle: ObstacleView, player: PlayerView)
    requires
        player.x == obstacle.x,
        0 <= player.row() < SCREEN_HEIGHT,
    ensures
        obstacle.hits(player) <==> obstacle.walls(player.x).contains(
            ObstacleView::brick(0, player.row()),
        ),
{
    let row = player.row();
    let walls = obstacle.walls(player.x);
    let upper = obstacle.upper_rows();
    let start = obstacle.lower_start();
    if obstacle.hits(player) {
        let at = if row < obstacle.top() {
            row
        } else {
            upper + (row - start)
        };
        assert(walls[at] == ObstacleView::brick(0, row));
    }
    if walls.contains(ObstacleView::brick(0, row)) {
        let at = choose|at: int| 0 <= at < walls.len() && walls[at] == ObstacleView::brick(0, row);
        let found = if at < upper {
            at
        } else {
            start + (at - upper)
        };
        assert(walls[at] == ObstacleView::brick(0, found));
        assert(found as i32 == row as i32);
    }
}

/// Two obstacles made for the same column at the same score have the same
/// passage.
pub proof fn spawn_is_deterministic(first: ObstacleView, second: ObstacleView, x: i32, score: int)
    requires
        first == ObstacleView::spawned(x, score),
        second == ObstacleView::spawned(x, score),
    ensures
        first.gap_y == second.gap_y,
        first.size == second.size,
{
}

} // verus!
