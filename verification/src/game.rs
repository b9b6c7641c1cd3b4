//! Per-tick orchestration: input-event folding, the running/terminated
//! loop state, background-color cycling, and the fixed system order
//! keyboard, then physics, then animation.

use vstd::prelude::*;

use crate::animator::{animation_after, sprite_after, Animator};
use crate::components::{
    Color, Direction, MovementAnimation, Point, Position, Rect, Sprite, Velocity,
    FRAMES_PER_DIRECTION,
};
use crate::keyboard::{velocity_after_command, Keyboard};
use crate::physics::{move_fits, position_after, Physics};
use crate::renderer::{op_fits, render, render_ops, DrawPlan};
use crate::world::World;

verus! {

/// How far a controlled entity moves per tick while a movement command
/// is in force.
pub const PLAYER_MOVEMENT_SPEED: i32 = 10;

/// The transient input intent of one tick: move in a direction, or stop.
#[derive(Clone, Copy, Debug, PartialEq, Eq, Structural)]
pub enum MovementCommand {
    Stop,
    Move(Direction),
}

/// A key the game loop cares about. Anything else maps to `Other`.
#[derive(Clone, Copy, Debug, PartialEq, Eq, Structural)]
pub enum Key {
    Up,
    Down,
    Left,
    Right,
    Escape,
    Other,
}

/// One input event of a tick, as the platform hands it over.
#[derive(Clone, Copy, Debug, PartialEq, Eq, Structural)]
pub enum InputEvent {
    /// The window was asked to close.
    Quit,
    KeyDown { key: Key, repeat: bool },
    KeyUp { key: Key, repeat: bool },
}

/// What polling the events of one tick decides: leave the loop, or keep
/// running with at most one movement command.
#[derive(Clone, Copy, Debug, PartialEq, Eq, Structural)]
pub enum PollResult {
    Quit,
    Run(Option<MovementCommand>),
}

/// Whether this event ends the loop: a quit signal, or a fresh press of
/// the escape key.
pub open spec fn is_quit_event(e: InputEvent) -> bool {
    match e {
        InputEvent::Quit => true,
        InputEvent::KeyDown { key, repeat } => key == Key::Escape && !repeat,
        InputEvent::KeyUp { key: _, repeat: _ } => false,
    }
}

/// The movement direction a key stands for, if any.
pub open spec fn direction_for_key(key: Key) -> Option<Direction> {
    match key {
        Key::Up => Some(Direction::Up),
        Key::Down => Some(Direction::Down),
        Key::Left => Some(Direction::Left),
        Key::Right => Some(Direction::Right),
        Key::Escape => None,
        Key::Other => None,
    }
}

/// Folds one non-quit event into the pending movement command: a fresh
/// press of a direction key commands a move, a fresh release of one
/// commands a stop, everything else leaves the command alone. The last
/// event processed wins.
pub open spec fn command_step(
    acc: Option<MovementCommand>,
    e: InputEvent,
) -> Option<MovementCommand> {
    match e {
        InputEvent::Quit => acc,
        InputEvent::KeyDown { key, repeat } => if !repeat && direction_for_key(key) is Some {
            Some(MovementCommand::Move(direction_for_key(key)->Some_0))
        } else {
            acc
        },
        InputEvent::KeyUp { key, repeat } => if !repeat && direction_for_key(key) is Some {
            Some(MovementCommand::Stop)
        } else {
            acc
        },
    }
}

/// The poll decision over the events from index `i` on, with `acc` the
/// command folded so far: the first quit event wins immediately; else
/// the remaining events are folded by [`command_step`].
pub open spec fn poll_from(
    events: Seq<InputEvent>,
    i: int,
    acc: Option<MovementCommand>,
) -> PollResult
    decreases events.len() - i,
{
    if i >= events.len() {
        PollResult::Run(acc)
    } else if is_quit_event(events[i]) {
        PollResult::Quit
    } else {
        poll_from(events, i + 1, command_step(acc, events[i]))
    }
}

/// The poll decision for the whole event batch of one tick.
pub open spec fn poll_events_spec(events: Seq<InputEvent>) -> PollResult {
    poll_from(events, 0, None)
}

/// Polls one tick's event batch, in order.
pub fn poll_events(events: &Vec<InputEvent>) -> (r: PollResult)
    ensures
        r == poll_events_spec(events@),
{
    let mut acc: Option<MovementCommand> = None;
    let mut i: usize = 0;
    while i < events.len()
        invariant
            i <= events@.len(),
            poll_events_spec(events@) == poll_from(events@, i as int, acc),
        decreases events@.len() - i,
    {
        let e = events[i];
        let quit = match e {
            InputEvent::Quit => true,
            InputEvent::KeyDown { key: Key::Escape, repeat: false } => true,
            _ => false,
        };
        if quit {
            return PollResult::Quit;
        }
        acc = match e {
            InputEvent::KeyDown { key: Key::Up, repeat: false } => Some(
                MovementCommand::Move(Direction::Up),
            ),
            InputEvent::KeyDown { key: Key::Down, repeat: false } => Some(
                MovementCommand::Move(Direction::Down),
            ),
            InputEvent::KeyDown { key: Key::Left, repeat: false } => Some(
                MovementCommand::Move(Direction::Left),
            ),
            InputEvent::KeyDown { key: Key::Right, repeat: false } => Some(
                MovementCommand::Move(Direction::Right),
            ),
            InputEvent::KeyUp { key: Key::Up, repeat: false } => Some(MovementCommand::Stop),
            InputEvent::KeyUp { key: Key::Down, repeat: false } => Some(MovementCommand::Stop),
            InputEvent::KeyUp { key: Key::Left, repeat: false } => Some(MovementCommand::Stop),
            InputEvent::KeyUp { key: Key::Right, repeat: false } => Some(MovementCommand::Stop),
            _ => acc,
        };
        i = i + 1;
    }
    PollResult::Run(acc)
}

/// A quit event anywhere in the batch makes the poll decision `Quit`,
/// whatever else the batch holds.
pub proof fn lemma_quit_event_quits(events: Seq<InputEvent>, k: int)
    requires
        0 <= k < events.len(),
        is_quit_event(events[k]),
    ensures
        poll_events_spec(events) == PollResult::Quit,
{
    lemma_quit_from(events, 0, None, k);
}

proof fn lemma_quit_from(events: Seq<InputEvent>, i: int, acc: Option<MovementCommand>, k: int)
    requires
        0 <= i <= k < events.len(),
        is_quit_event(events[k]),
    ensures
        poll_from(events, i, acc) == PollResult::Quit,
    decreases k - i,
{
    if i < k && !is_quit_event(events[i]) {
        lemma_quit_from(events, i + 1, command_step(acc, events[i]), k);
    }
}

/// The sprite-sheet row that holds the walking frames for a direction.
///
/// The sheet stacks four animation rows vertically in the fixed order
/// Down, Left, Right, Up; this layout convention is part of the asset
/// format and must not change.
pub open spec fn spritesheet_row(direction: Direction) -> int {
    match direction {
        Direction::Down => 0,
        Direction::Left => 1,
        Direction::Right => 2,
        Direction::Up => 3,
    }
}

/// Returns the sprite-sheet row for `direction`.
pub fn direction_spritesheet_row(direction: Direction) -> (row: i32)
    ensures
        row == spritesheet_row(direction),
{
    match direction {
        Direction::Down => 0,
        Direction::Left => 1,
        Direction::Right => 2,
        Direction::Up => 3,
    }
}

/// The row mapping is a fixed total function on the exhaustive direction
/// enum: Down, Left, Right and Up go to 0, 1, 2 and 3, in that order, and
/// no other value of either side occurs.
pub proof fn lemma_spritesheet_row_total(d: Direction)
    ensures
        spritesheet_row(d) == 0 <==> d == Direction::Down,
        spritesheet_row(d) == 1 <==> d == Direction::Left,
        spritesheet_row(d) == 2 <==> d == Direction::Right,
        spritesheet_row(d) == 3 <==> d == Direction::Up,
        0 <= spritesheet_row(d) <= 3,
{
}

/// What the generated walking frames for one direction look like:
/// exactly three frames, tiled horizontally from the top-left frame and
/// shifted down by the direction's sheet row.
pub open spec fn is_animation_frames(
    frames: Seq<Sprite>,
    sprite_sheet: usize,
    top_left_frame: Rect,
    direction: Direction,
) -> bool {
    &&& frames.len() == FRAMES_PER_DIRECTION
    &&& forall|i: int|
        #![trigger frames[i]]
        0 <= i < frames.len() ==> {
            &&& frames[i].sprite_sheet == sprite_sheet
            &&& frames[i].region.x == top_left_frame.x + i * top_left_frame.width
            &&& frames[i].region.y == top_left_frame.y + spritesheet_row(direction)
                * top_left_frame.height
            &&& frames[i].region.width == top_left_frame.width
            &&& frames[i].region.height == top_left_frame.height
        }
}

/// Builds the three walking frames of one direction from the sheet's
/// top-left frame rectangle.
pub fn create_character_animation_frames(
    sprite_sheet: usize,
    top_left_frame: Rect,
    direction: Direction,
) -> (frames: Vec<Sprite>)
    requires
        top_left_frame.x + 2 * top_left_frame.width <= i32::MAX,
        top_left_frame.y + 3 * top_left_frame.height <= i32::MAX,
    ensures
        is_animation_frames(frames@, sprite_sheet, top_left_frame, direction),
{
    let row = direction_spritesheet_row(direction);
    let y64: i64 = top_left_frame.y as i64 + (top_left_frame.height as i64) * (row as i64);
    let y_offset = y64 as i32;
    let x0_64: i64 = top_left_frame.x as i64;
    let w64: i64 = top_left_frame.width as i64;
    let mut frames: Vec<Sprite> = Vec::new();
    frames.push(
        Sprite {
            sprite_sheet,
            region: Rect {
                x: x0_64 as i32,
                y: y_offset,
                width: top_left_frame.width,
                height: top_left_frame.height,
            },
        },
    );
    frames.push(
        Sprite {
            sprite_sheet,
            region: Rect {
                x: (x0_64 + w64) as i32,
                y: y_offset,
                width: top_left_frame.width,
                height: top_left_frame.height,
            },
        },
    );
    frames.push(
        Sprite {
            sprite_sheet,
            region: Rect {
                x: (x0_64 + 2 * w64) as i32,
                y: y_offset,
                width: top_left_frame.width,
                height: top_left_frame.height,
            },
        },
    );
    proof {
        assert(frames@.len() == 3);
        assert(frames@[0].region.x == top_left_frame.x + 0 * top_left_frame.width);
        assert(frames@[1].region.x == top_left_frame.x + 1 * top_left_frame.width);
        assert(frames@[2].region.x == top_left_frame.x + 2 * top_left_frame.width);
    }
    frames
}

/// Frame generation is deterministic and idempotent: any two frame
/// sequences generated from the same sprite-sheet index, top-left frame
/// and direction are identical.
pub proof fn lemma_frame_generation_deterministic(
    a: Seq<Sprite>,
    b: Seq<Sprite>,
    sprite_sheet: usize,
    top_left_frame: Rect,
    direction: Direction,
)
    requires
        is_animation_frames(a, sprite_sheet, top_left_frame, direction),
        is_animation_frames(b, sprite_sheet, top_left_frame, direction),
    ensures
        a == b,
{
    assert forall|i: int| 0 <= i < a.len() implies a[i] == b[i] by {
        assert(a[i].region =~= b[i].region);
        assert(a[i] =~= b[i]);
    }
    assert(a =~= b);
}

/// The velocity of entity `i` after the keyboard system of one tick.
pub open spec fn tick_velocity(w: World, cmd: Option<MovementCommand>, i: int) -> Option<
    Velocity,
> {
    if w.velocities@[i] is Some {
        Some(velocity_after_command(cmd, w.controlled@[i], w.velocities@[i]->Some_0))
    } else {
        w.velocities@[i]
    }
}

/// The position of entity `i` after the physics system of one tick,
/// which observes the keyboard system's output.
pub open spec fn tick_position(w: World, cmd: Option<MovementCommand>, i: int) -> Option<
    Position,
> {
    if w.positions@[i] is Some && w.velocities@[i] is Some {
        Some(position_after(w.positions@[i]->Some_0, tick_velocity(w, cmd, i)->Some_0))
    } else {
        w.positions@[i]
    }
}

/// Whether entity `i` takes an animation step this tick: it has an
/// animation, a sprite, and its post-keyboard velocity is nonzero.
pub open spec fn tick_animates(w: World, cmd: Option<MovementCommand>, i: int) -> bool {
    &&& w.animations@[i] is Some
    &&& w.sprites@[i] is Some
    &&& w.velocities@[i] is Some
    &&& tick_velocity(w, cmd, i)->Some_0.speed != 0
}

/// The animation record of entity `i` after one tick.
pub open spec fn tick_animation(w: World, cmd: Option<MovementCommand>, i: int) -> Option<
    MovementAnimation,
> {
    if tick_animates(w, cmd, i) {
        Some(animation_after(w.animations@[i]->Some_0, tick_velocity(w, cmd, i)->Some_0.direction))
    } else {
        w.animations@[i]
    }
}

/// The drawable sprite of entity `i` after one tick.
pub open spec fn tick_sprite(w: World, cmd: Option<MovementCommand>, i: int) -> Option<Sprite> {
    if tick_animates(w, cmd, i) {
        Some(sprite_after(w.animations@[i]->Some_0, tick_velocity(w, cmd, i)->Some_0.direction))
    } else {
        w.sprites@[i]
    }
}

/// The whole game state between ticks: the world plus the background
/// color step.
pub struct Game {
    pub world: World,
    /// Background hue step of the next frame: 0 at start, shown by that
    /// frame, then advanced by one, wrapping modulo 255.
    pub color_index: u8,
}

/// The background color at hue step `i`: the red channel climbs with
/// `i`, the blue channel is its complement, green is fixed.
pub open spec fn background_color(i: u8) -> Color {
    Color { r: i, g: 64, b: (255 - i) as u8 }
}

/// Every moving entity can take this tick's physics step, with the
/// velocity the keyboard system will give it, without leaving pixel
/// space.
pub open spec fn tick_move_fits(g: Game, cmd: Option<MovementCommand>) -> bool {
    forall|i: int|
        #![trigger g.world.positions@[i]]
        0 <= i < g.world.len() && g.world.positions@[i] is Some && g.world.velocities@[i] is Some
            ==> move_fits(g.world.positions@[i]->Some_0, tick_velocity(g.world, cmd, i)->Some_0)
}

/// How one tick relates the new game state to the old one, given the
/// tick's movement command: the color step advances by one modulo 255,
/// and every entity's components step by the keyboard, physics and
/// animation systems in that order.
pub open spec fn tick_rel(pre: Game, post: Game, cmd: Option<MovementCommand>) -> bool {
    &&& post.world.len() == pre.world.len()
    &&& post.color_index == (pre.color_index + 1) % 255
    &&& post.world.controlled@ == pre.world.controlled@
    &&& forall|i: int|
        0 <= i < pre.world.len() ==> #[trigger] post.world.velocities@[i] == tick_velocity(
            pre.world,
            cmd,
            i,
        )
    &&& forall|i: int|
        0 <= i < pre.world.len() ==> #[trigger] post.world.positions@[i] == tick_position(
            pre.world,
            cmd,
            i,
        )
    &&& forall|i: int|
        0 <= i < pre.world.len() ==> #[trigger] post.world.animations@[i] == tick_animation(
            pre.world,
            cmd,
            i,
        )
    &&& forall|i: int|
        0 <= i < pre.world.len() ==> #[trigger] post.world.sprites@[i] == tick_sprite(
            pre.world,
            cmd,
            i,
        )
}

impl Game {
    /// The structural invariant: a well-formed world and a color step
    /// below 255.
    pub open spec fn wf(self) -> bool {
        &&& self.world.wf()
        &&& self.color_index < 255
    }

    /// Runs the systems of one tick in their fixed order — keyboard,
    /// then physics, then animation — and advances the background color
    /// step.
    pub fn tick(&mut self, command: &Option<MovementCommand>)
        requires
            old(self).wf(),
            tick_move_fits(*old(self), *command),
        ensures
            final(self).wf(),
            tick_rel(*old(self), *final(self), *command),
    {
        self.color_index = (self.color_index + 1) % 255;
        let ghost w0 = self.world;
        let mut keyboard = Keyboard;
        keyboard.run(&mut self.world, command);
        let ghost w1 = self.world;
        proof {
            assert forall|i: int|
                #![trigger w1.positions@[i], w1.velocities@[i]]
                0 <= i < w1.len() && w1.positions@[i] is Some && w1.velocities@[i] is Some
                    implies move_fits(w1.positions@[i]->Some_0, w1.velocities@[i]->Some_0) by {
                assert(w0.positions@[i] is Some);
                assert(w0.velocities@[i] is Some);
            }
        }
        let mut physics = Physics;
        physics.run(&mut self.world);
        let ghost w2 = self.world;
        let mut animator = Animator;
        animator.run(&mut self.world);
        proof {
            let w3 = self.world;
            assert forall|i: int|
                0 <= i < w0.len() implies #[trigger] w3.velocities@[i] == tick_velocity(
                w0,
                *command,
                i,
            ) by {
                assert(w1.velocities@[i] == w3.velocities@[i]);
            }
            assert forall|i: int|
                0 <= i < w0.len() implies #[trigger] w3.positions@[i] == tick_position(
                w0,
                *command,
                i,
            ) by {
                assert(w2.positions@[i] == w3.positions@[i]);
            }
            assert forall|i: int|
                0 <= i < w0.len() implies #[trigger] w3.animations@[i] == tick_animation(
                w0,
                *command,
                i,
            ) by {
                assert(w2.animations@[i] == w1.animations@[i]);
            }
            assert forall|i: int|
                0 <= i < w0.len() implies #[trigger] w3.sprites@[i] == tick_sprite(
                w0,
                *command,
                i,
            ) by {
                assert(w2.sprites@[i] == w1.sprites@[i]);
            }
        }
    }
}

/// What one loop step ends in: the loop leaves, or the game ran one
/// tick and the frame's draw plan is ready.
#[derive(Clone, Debug)]
pub enum StepResult {
    Terminated,
    Frame(DrawPlan),
}

/// The sheet rectangle of the player's top-left animation frame.
pub open spec fn player_top_left_frame() -> Rect {
    Rect { x: 0, y: 0, width: 26, height: 36 }
}

/// Every entity that is drawable after this tick fits on an output of
/// the given size.
pub open spec fn tick_render_fits(
    g: Game,
    cmd: Option<MovementCommand>,
    width: u32,
    height: u32,
) -> bool {
    forall|i: int|
        #![trigger tick_position(g.world, cmd, i)]
        0 <= i < g.world.len() && tick_position(g.world, cmd, i) is Some && tick_sprite(
            g.world,
            cmd,
            i,
        ) is Some ==> op_fits(
            tick_position(g.world, cmd, i)->Some_0,
            tick_sprite(g.world, cmd, i)->Some_0,
            width,
            height,
        )
}

impl Game {
    /// Sets up a fresh game: one controlled player at the origin, facing
    /// right, standing still, showing the first frame of the right-walk
    /// sequence, with the background at hue step 0.
    pub fn new() -> (g: Game)
        ensures
            g.wf(),
            g.color_index == 0,
            g.world.len() == 1,
            g.world.controlled@[0] == true,
            g.world.positions@[0] == Some(Position(Point { x: 0, y: 0 })),
            g.world.velocities@[0] == Some(
                Velocity { speed: 0, direction: Direction::Right },
            ),
            g.world.animations@[0] is Some,
            g.world.animations@[0]->Some_0.current_frame == 0,
            is_animation_frames(
                g.world.animations@[0]->Some_0.up_frames@,
                0,
                player_top_left_frame(),
                Direction::Up,
            ),
            is_animation_frames(
                g.world.animations@[0]->Some_0.down_frames@,
                0,
                player_top_left_frame(),
                Direction::Down,
            ),
            is_animation_frames(
                g.world.animations@[0]->Some_0.left_frames@,
                0,
                player_top_left_frame(),
                Direction::Left,
            ),
            is_animation_frames(
                g.world.animations@[0]->Some_0.right_frames@,
                0,
                player_top_left_frame(),
                Direction::Right,
            ),
            g.world.sprites@[0] == Some(g.world.animations@[0]->Some_0.right_frames@[0]),
    {
        let player_spritesheet: usize = 0;
        let player_top_left = Rect { x: 0, y: 0, width: 26, height: 36 };
        let player_animation = MovementAnimation {
            current_frame: 0,
            up_frames: create_character_animation_frames(
                player_spritesheet,
                player_top_left,
                Direction::Up,
            ),
            down_frames: create_character_animation_frames(
                player_spritesheet,
                player_top_left,
                Direction::Down,
            ),
            left_frames: create_character_animation_frames(
                player_spritesheet,
                player_top_left,
                Direction::Left,
            ),
            right_frames: create_character_animation_frames(
                player_spritesheet,
                player_top_left,
                Direction::Right,
            ),
        };
        let first_sprite = player_animation.right_frames[0];
        let mut world = World::new();
        world.add_entity(
            Some(Position(Point { x: 0, y: 0 })),
            Some(Velocity { speed: 0, direction: Direction::Right }),
            Some(first_sprite),
            Some(player_animation),
            true,
        );
        Game { world, color_index: 0 }
    }

    /// Runs one whole loop step: polls the tick's events, and either
    /// leaves the loop on a quit decision — the state untouched — or
    /// runs one tick and computes the frame's draw plan, cleared at the
    /// hue step this tick began with.
    pub fn step(&mut self, events: &Vec<InputEvent>, width: u32, height: u32) -> (res:
        StepResult)
        requires
            old(self).wf(),
            width <= i32::MAX,
            height <= i32::MAX,
            poll_events_spec(events@) matches PollResult::Run(cmd) ==> tick_move_fits(
                *old(self),
                cmd,
            ) && tick_render_fits(*old(self), cmd, width, height),
        ensures
            final(self).wf(),
            poll_events_spec(events@) == PollResult::Quit ==> res is Terminated && *final(self)
                == *old(self),
            poll_events_spec(events@) matches PollResult::Run(cmd) ==> {
                &&& res is Frame
                &&& tick_rel(*old(self), *final(self), cmd)
                &&& res->Frame_0.clear_color == background_color(old(self).color_index)
                &&& res->Frame_0.ops@ == render_ops(final(self).world, width, height)
            },
    {
        let poll = poll_events(events);
        match poll {
            PollResult::Quit => StepResult::Terminated,
            PollResult::Run(command) => {
                let ghost pre = *self;
                // The frame of tick t shows hue step t, counting from 0,
                // so the clear color is taken before the step advances.
                let shown = self.color_index;
                self.tick(&command);
                proof {
                    assert forall|i: int|
                        #![trigger self.world.positions@[i], self.world.sprites@[i]]
                        0 <= i < self.world.len() && self.world.positions@[i] is Some
                            && self.world.sprites@[i] is Some implies op_fits(
                        self.world.positions@[i]->Some_0,
                        self.world.sprites@[i]->Some_0,
                        width,
                        height,
                    ) by {
                        assert(self.world.positions@[i] == tick_position(pre.world, command, i));
                        assert(self.world.sprites@[i] == tick_sprite(pre.world, command, i));
                    }
                }
                let color = Color { r: shown, g: 64, b: 255 - shown };
                let plan = render(color, width, height, &self.world);
                StepResult::Frame(plan)
            },
        }
    }
}

/// The background hue step after `n` ticks from a fresh game — the step
/// whose color the frame of tick `n` is cleared with.
pub open spec fn iterated_color_index(n: nat) -> int
    decreases n,
{
    if n == 0 {
        0
    } else {
        (iterated_color_index((n - 1) as nat) + 1) % 255
    }
}

/// The background hue step is 0 at tick 0, advances by one each tick,
/// and wraps modulo 255: the frame of tick `n` shows exactly `n % 255`,
/// so it is reproducible from the tick count alone.
pub proof fn lemma_color_cycle(n: nat)
    ensures
        iterated_color_index(n) == n % 255,
    decreases n,
{
    if n > 0 {
        lemma_color_cycle((n - 1) as nat);
        assert(((n - 1) % 255 + 1) % 255 == n % 255) by (nonlinear_arith);
    }
}

} // verus!
