//! The player: a gravity integrator with a flap impulse.

use crate::config::{FLAP_VELOCITY, GRAVITY, TERMINAL_VELOCITY, UNITS_PER_ROW};
use crate::display::{Color, Draw};
use vstd::prelude::*;

verus! {

/// The player as a mathematical value.
pub struct PlayerView {
    /// World column; grows by one with every physics step.
    pub x: int,
    /// Distance below the top of the screen, in tenths of a row.
    pub y: int,
    /// Vertical speed in tenths of a row per physics step; positive is downward.
    pub velocity: int,
}

impl PlayerView {
    /// A player at rest in column `x` and row `row`.
    pub open spec fn start(x: int, row: int) -> PlayerView {
        PlayerView { x, y: row * UNITS_PER_ROW, velocity: 0 }
    }

    /// The row the player is in: its position with the fraction cut off.
    pub open spec fn row(self) -> int {
        if self.y >= 0 {
            self.y / (UNITS_PER_ROW as int)
        } else {
            -((-self.y) / (UNITS_PER_ROW as int))
        }
    }

    /// The speed lies between the flap impulse and the terminal velocity, and
    /// column and row are representable.
    pub open spec fn wf(self) -> bool {
        &&& i32::MIN <= self.x <= i32::MAX
        &&& i32::MIN <= self.row() <= i32::MAX
        &&& FLAP_VELOCITY <= self.velocity <= TERMINAL_VELOCITY
    }

    /// There is room for one more physics step: the column can grow by one
    /// and the row by a full step at terminal velocity.
    pub open spec fn can_move(self) -> bool {
        &&& self.x < i32::MAX
        &&& self.row() <= i32::MAX - 2
    }

    /// The speed after one more step of gravity.
    pub open spec fn pulled(velocity: int) -> int {
        if velocity + GRAVITY > TERMINAL_VELOCITY {
            TERMINAL_VELOCITY as int
        } else {
            velocity + GRAVITY
        }
    }

    /// One physics step: gravity is added to the speed up to the terminal
    /// velocity, the new speed is added to the position, which stops at the
    /// top of the screen, and the column advances by one.
    pub open spec fn moved(self) -> PlayerView {
        let velocity = Self::pulled(self.velocity);
        let y = self.y + velocity;
        PlayerView { x: self.x + 1, y: if y < 0 { 0 } else { y }, velocity }
    }

    /// The player after `steps` physics steps.
    pub open spec fn moved_by(self, steps: nat) -> PlayerView
        decreases steps,
    {
        if steps == 0 {
            self
        } else {
            self.moved_by((steps - 1) as nat).moved()
        }
    }

    /// A flap: the speed becomes the upward impulse, whatever it was.
    pub open spec fn flapped(self) -> PlayerView {
        PlayerView { velocity: FLAP_VELOCITY as int, ..self }
    }

    /// The glyph that shows the player: always in the leftmost column, in the
    /// player's row.
    pub open spec fn glyph(self) -> Draw {
        Draw::Glyph {
            column: 0,
            row: self.row() as i32,
            glyph: '@',
            fg: Color::Yellow,
            bg: Color::Black,
        }
    }
}

/// The player-controlled entity.
#[derive(Clone, Copy, Debug)]
pub struct Player {
    x: i32,
    y: i64,
    velocity: i32,
}

impl View for Player {
    type V = PlayerView;

    closed spec fn view(&self) -> PlayerView {
        PlayerView { x: self.x as int, y: self.y as int, velocity: self.velocity as int }
    }
}

impl Player {
    #[verifier::type_invariant]
    spec fn inv(self) -> bool {
        self@.wf()
    }

    /// A player at rest in column `x` and row `y`.
    pub fn new(x: i32, y: i32) -> (player: Player)
        ensures
            player@ == PlayerView::start(x as int, y as int),
            player@.wf(),
            player@.row() == y,
    {
        Player { x, y: (y as i64) * UNITS_PER_ROW, velocity: 0 }
    }

    /// Advances the player by one physics step.
    pub fn gravity_and_move(&mut self)
        requires
            old(self)@.can_move(),
        ensures
            final(self)@ == old(self)@.moved(),
            final(self)@.wf(),
            final(self)@.velocity <= TERMINAL_VELOCITY,
            final(self)@.y >= 0,
            final(self)@.x == old(self)@.x + 1,
    {
        proof {
            use_type_invariant(&*self);
        }
        let pulled: i32 = self.velocity + GRAVITY;
        self.velocity = if pulled > TERMINAL_VELOCITY {
            TERMINAL_VELOCITY
        } else {
            pulled
        };
        let y: i64 = self.y + (self.velocity as i64);
        self.y = if y < 0 {
            0
        } else {
            y
        };
        self.x = self.x + 1;
    }

    /// Gives the player its upward impulse.
    pub fn flap(&mut self)
        ensures
            final(self)@ == old(self)@.flapped(),
            final(self)@.velocity == FLAP_VELOCITY,
            final(self)@.wf(),
    {
        proof {
            use_type_invariant(&*self);
        }
        self.velocity = FLAP_VELOCITY;
    }

    /// The glyph that shows the player.
    pub fn render(&self) -> (draw: Draw)
        ensures
            draw == self@.glyph(),
    {
        Draw::Glyph {
            column: 0,
            row: self.y_pos(),
            glyph: '@',
            fg: Color::Yellow,
            bg: Color::Black,
        }
    }

    /// The player's world column.
    pub fn x_pos(&self) -> (x: i32)
        ensures
            x == self@.x,
    {
        self.x
    }

    /// The player's row.
    pub fn y_pos(&self) -> (row: i32)
        ensures
            row == self@.row(),
    {
        proof {
            use_type_invariant(self);
        }
        (self.y / UNITS_PER_ROW) as i32
    }

    /// The player's distance below the top of the screen, in tenths of a row.
    pub fn depth(&self) -> (y: i64)
        ensures
            y == self@.y,
    {
        self.y
    }

    /// The player's vertical speed, in tenths of a row per physics step.
    pub fn velocity(&self) -> (velocity: i32)
        ensures
            velocity == self@.velocity,
    {
        self.velocity
    }

    /// Whether there is room for one more physics step.
    pub fn can_move(&self) -> (ok: bool)
        ensures
            ok == self@.can_move(),
    {
        self.x < i32::MAX && self.y_pos() <= i32::MAX - 2
    }
}

/// After any number of physics steps but none, the speed is at most the
/// terminal velocity, whatever it was before.
pub proof fn velocity_stays_capped(player: PlayerView, steps: nat)
    requires
        steps >= 1,
    ensures
        player.moved_by(steps).velocity <= TERMINAL_VELOCITY,
{
}

/// After any number of physics steps but none, the player is at or below the
/// top of the screen, also when it starts there and keeps rising.
pub proof fn position_stays_below_top(player: PlayerView, steps: nat)
    requires
        steps >= 1,
    ensures
        player.moved_by(steps).y >= 0,
        player.moved_by(steps).row() >= 0,
{
}

} // verus!
