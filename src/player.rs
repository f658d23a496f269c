use vstd::prelude::*;

use crate::animation::{AnimationConfig, SpriteState};

verus! {

/// Player walking speed in pixels per second.
pub const PLAYER_SPEED: u32 = 275;

/// Column block of the player's character on the sprite sheet.
pub const CHARACTER_OFFSET: usize = 5;

pub const FIRST_IDLE: usize = 9 * CHARACTER_OFFSET;

pub const LAST_IDLE: usize = FIRST_IDLE + 3;

pub const FIRST_RUNNING: usize = LAST_IDLE + 1;

pub const LAST_RUNNING: usize = FIRST_RUNNING + 3;

pub const FPS_IDLE: u8 = 8;

pub const FPS_RUNNING: u8 = 12;

/// Starting health of the player, in hit points.
pub const PLAYER_START_HEALTH: u32 = 10;

#[derive(Clone, Copy, Debug, PartialEq, Eq, Structural)]
pub struct FacingDirection {
    pub facing_right: bool,
}

#[derive(Clone, Copy, Debug, PartialEq, Eq, Structural)]
pub enum MovementState {
    Idle,
    Moving,
}

/// A direction on the grid of the arrow keys: each component is -1, 0 or 1.
#[derive(Clone, Copy, Debug, PartialEq, Eq, Structural)]
pub struct Direction {
    pub x: i32,
    pub y: i32,
}

/// Which arrow keys are held down.
#[derive(Clone, Copy, Debug, PartialEq, Eq, Structural)]
pub struct MovementKeys {
    pub up: bool,
    pub down: bool,
    pub left: bool,
    pub right: bool,
}

impl Default for FacingDirection {
    fn default() -> (r: FacingDirection)
        ensures
            r.facing_right == false,
    {
        FacingDirection { facing_right: false }
    }
}

impl Default for MovementState {
    fn default() -> (r: MovementState)
        ensures
            r == MovementState::Idle,
    {
        MovementState::Idle
    }
}

/// 1 for a held key, 0 otherwise.
pub open spec fn key_value(held: bool) -> int {
    if held {
        1
    } else {
        0
    }
}

/// The unit direction a player facing right or left looks in.
pub open spec fn facing_spec(facing_right: bool) -> Direction {
    if facing_right {
        Direction { x: 1, y: 0 }
    } else {
        Direction { x: -1i32, y: 0 }
    }
}

/// The unit direction a player facing right or left looks in.
pub fn facing_vector(facing_right: bool) -> (r: Direction)
    ensures
        r == facing_spec(facing_right),
{
    if facing_right {
        Direction { x: 1, y: 0 }
    } else {
        Direction { x: -1, y: 0 }
    }
}

/// Reads the arrow keys: the direction to walk in (opposite keys cancel out),
/// whether the player moves at all, and which way it faces afterwards. The
/// facing changes only when the direction has a horizontal part.
pub fn character_movement(keys: MovementKeys, facing: &mut FacingDirection) -> (r: (
    Direction,
    MovementState,
))
    ensures
        r.0.x == key_value(keys.right) - key_value(keys.left),
        r.0.y == key_value(keys.up) - key_value(keys.down),
        r.1 == (if r.0.x != 0 || r.0.y != 0 {
            MovementState::Moving
        } else {
            MovementState::Idle
        }),
        final(facing).facing_right == (if r.0.x != 0 {
            r.0.x > 0
        } else {
            old(facing).facing_right
        }),
{
    let mut x: i32 = 0;
    let mut y: i32 = 0;
    if keys.up {
        y = y + 1;
    }
    if keys.down {
        y = y - 1;
    }
    if keys.left {
        x = x - 1;
    }
    if keys.right {
        x = x + 1;
    }
    let moving = x != 0 || y != 0;
    if x != 0 {
        facing.facing_right = x > 0;
    }
    let state = if moving {
        MovementState::Moving
    } else {
        MovementState::Idle
    };
    (Direction { x, y }, state)
}

/// A sprite is drawn mirrored when its owner faces left.
pub fn update_sprite_direction(facing: &FacingDirection) -> (flip_x: bool)
    ensures
        flip_x == !facing.facing_right,
{
    !facing.facing_right
}

/// Switches the player between its idle and running animations when the
/// movement state no longer matches the one showing.
pub fn update_animation_state(
    sprite_state: &mut SpriteState,
    config: &mut AnimationConfig,
    movement: MovementState,
)
    ensures
        *old(sprite_state) == SpriteState::Idle && movement == MovementState::Moving ==> {
            &&& *final(sprite_state) == SpriteState::Running
            &&& *final(config) == AnimationConfig::new_spec(
                FIRST_RUNNING,
                LAST_RUNNING,
                FPS_RUNNING,
            )
        },
        *old(sprite_state) == SpriteState::Running && movement == MovementState::Idle ==> {
            &&& *final(sprite_state) == SpriteState::Idle
            &&& *final(config) == AnimationConfig::new_spec(FIRST_IDLE, LAST_IDLE, FPS_IDLE)
        },
        (*old(sprite_state) == SpriteState::Idle) == (movement == MovementState::Idle) ==> {
            &&& *final(sprite_state) == *old(sprite_state)
            &&& *final(config) == *old(config)
        },
{
    let is_moving = movement == MovementState::Moving;
    match *sprite_state {
        SpriteState::Idle => {
            if is_moving {
                *sprite_state = SpriteState::Running;
                *config = AnimationConfig::new(FIRST_RUNNING, LAST_RUNNING, FPS_RUNNING);
            }
        },
        SpriteState::Running => {
            if !is_moving {
                *sprite_state = SpriteState::Idle;
                *config = AnimationConfig::new(FIRST_IDLE, LAST_IDLE, FPS_IDLE);
            }
        },
    }
}

} // verus!
