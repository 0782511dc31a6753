//! The player's ship: how it rolls as it steers.

use vstd::prelude::*;

verus! {

/// The frame that shows the ship level.
pub const LEVEL_FRAME: i8 = 5;

/// The last frame of the roll. The first is frame zero.
pub const LAST_FRAME: i8 = 10;

/// Which way the ship moves sideways.
#[derive(Clone, Copy, Debug, PartialEq, Eq, Structural)]
pub enum Steering {
    Left,
    Straight,
    Right,
}

/// The frame of the roll that the ship shows.
#[derive(Clone, Copy, Debug, PartialEq, Eq, Structural)]
pub struct PlayerAnimation {
    pub roll_frame: i8,
}

/// The frame after one step of steering: moving left rolls one frame up, to
/// the last frame at most; moving right rolls one frame down, to frame zero at
/// least; moving straight rolls one frame towards the level frame.
pub open spec fn rolled(frame: int, steering: Steering) -> int {
    match steering {
        Steering::Left => if frame + 1 < LAST_FRAME {
            frame + 1
        } else {
            LAST_FRAME as int
        },
        Steering::Right => if frame - 1 > 0 {
            frame - 1
        } else {
            0
        },
        Steering::Straight => if frame > LEVEL_FRAME {
            frame - 1
        } else if frame < LEVEL_FRAME {
            frame + 1
        } else {
            frame
        },
    }
}

impl PlayerAnimation {
    /// Rolls the ship by one step of steering.
    pub fn steer(&mut self, steering: Steering)
        requires
            steering == Steering::Left ==> old(self).roll_frame < i8::MAX,
            steering == Steering::Right ==> old(self).roll_frame > i8::MIN,
            steering == Steering::Straight ==> old(self).roll_frame - LEVEL_FRAME >= i8::MIN,
        ensures
            final(self).roll_frame == rolled(old(self).roll_frame as int, steering),
    {
        match steering {
            Steering::Left => {
                let up = self.roll_frame + 1;
                self.roll_frame = if up < LAST_FRAME {
                    up
                } else {
                    LAST_FRAME
                };
            },
            Steering::Right => {
                let down = self.roll_frame - 1;
                self.roll_frame = if down > 0 {
                    down
                } else {
                    0
                };
            },
            Steering::Straight => {
                let off = self.roll_frame - LEVEL_FRAME;
                if off > 0 {
                    self.roll_frame = self.roll_frame - 1;
                } else if off < 0 {
                    self.roll_frame = self.roll_frame + 1;
                }
            },
        }
    }
}

/// The sprite of the sheet that shows the ship: the one at the frame of the
/// roll. A frame below zero counts down from past the greatest index, as the
/// frame does when it is widened to an index.
pub fn animate_player(player_animation: &PlayerAnimation) -> (index: usize)
    ensures
        player_animation.roll_frame >= 0 ==> index == player_animation.roll_frame,
        player_animation.roll_frame < 0 ==> index == usize::MAX + 1 + player_animation.roll_frame,
{
    let frame = player_animation.roll_frame;
    if frame >= 0 {
        frame as usize
    } else {
        usize::MAX - (-(frame as i16) - 1) as usize
    }
}

} // verus!
