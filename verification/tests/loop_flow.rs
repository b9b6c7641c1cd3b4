use game_tutorial::components::{Color, Direction, Point, Position, Rect, Sprite, Velocity};
use game_tutorial::game::{
    poll_events, Game, InputEvent, Key, MovementCommand, PollResult, StepResult,
};
use game_tutorial::renderer::render;
use game_tutorial::world::World;

const WIDTH: u32 = 800;
const HEIGHT: u32 = 600;

fn no_events() -> Vec<InputEvent> {
    Vec::new()
}

fn down(key: Key) -> InputEvent {
    InputEvent::KeyDown { key, repeat: false }
}

fn up(key: Key) -> InputEvent {
    InputEvent::KeyUp { key, repeat: false }
}

fn run_tick(game: &mut Game, events: Vec<InputEvent>) -> StepResult {
    game.step(&events, WIDTH, HEIGHT)
}

#[test]
fn poll_empty_batch_keeps_running() {
    assert_eq!(poll_events(&no_events()), PollResult::Run(None));
}

#[test]
fn poll_last_event_wins() {
    let events = vec![down(Key::Right), down(Key::Up)];
    assert_eq!(
        poll_events(&events),
        PollResult::Run(Some(MovementCommand::Move(Direction::Up)))
    );
    let events = vec![down(Key::Left), up(Key::Left)];
    assert_eq!(
        poll_events(&events),
        PollResult::Run(Some(MovementCommand::Stop))
    );
}

#[test]
fn poll_quit_and_fresh_escape_terminate() {
    assert_eq!(poll_events(&vec![InputEvent::Quit]), PollResult::Quit);
    assert_eq!(poll_events(&vec![down(Key::Escape)]), PollResult::Quit);
    assert_eq!(
        poll_events(&vec![down(Key::Right), InputEvent::Quit]),
        PollResult::Quit
    );
}

#[test]
fn poll_ignores_repeats_and_other_keys() {
    let events = vec![
        InputEvent::KeyDown {
            key: Key::Right,
            repeat: true,
        },
        InputEvent::KeyUp {
            key: Key::Left,
            repeat: true,
        },
        down(Key::Other),
        up(Key::Other),
        InputEvent::KeyDown {
            key: Key::Escape,
            repeat: true,
        },
    ];
    assert_eq!(poll_events(&events), PollResult::Run(None));
}

#[test]
fn fresh_game_holds_idle_player() {
    let game = Game::new();
    assert_eq!(game.color_index, 0);
    assert_eq!(game.world.positions[0].unwrap().0, Point { x: 0, y: 0 });
    let v = game.world.velocities[0].unwrap();
    assert_eq!(v.speed, 0);
    assert_eq!(v.direction, Direction::Right);
    let anim = game.world.animations[0].as_ref().unwrap();
    assert_eq!(anim.current_frame, 0);
    assert_eq!(game.world.sprites[0].unwrap(), anim.right_frames[0]);
    assert!(game.world.controlled[0]);
}

#[test]
fn idle_tick_changes_nothing_but_color() {
    let mut game = Game::new();
    let res = run_tick(&mut game, no_events());
    assert!(matches!(res, StepResult::Frame(_)));
    assert_eq!(game.world.positions[0].unwrap().0, Point { x: 0, y: 0 });
    assert_eq!(game.world.velocities[0].unwrap().speed, 0);
    assert_eq!(game.world.animations[0].as_ref().unwrap().current_frame, 0);
    assert_eq!(game.color_index, 1);
}

#[test]
fn move_then_stop_scenario() {
    let mut game = Game::new();
    run_tick(&mut game, no_events());

    run_tick(&mut game, vec![down(Key::Right)]);
    let v = game.world.velocities[0].unwrap();
    assert_eq!(v.speed, 10);
    assert_eq!(v.direction, Direction::Right);
    assert_eq!(game.world.positions[0].unwrap().0, Point { x: 10, y: 0 });
    assert_eq!(game.world.animations[0].as_ref().unwrap().current_frame, 1);

    run_tick(&mut game, no_events());
    assert_eq!(game.world.positions[0].unwrap().0, Point { x: 20, y: 0 });
    assert_eq!(game.world.animations[0].as_ref().unwrap().current_frame, 2);

    run_tick(&mut game, vec![up(Key::Right)]);
    assert_eq!(game.world.velocities[0].unwrap().speed, 0);
    assert_eq!(game.world.positions[0].unwrap().0, Point { x: 20, y: 0 });
    assert_eq!(game.world.animations[0].as_ref().unwrap().current_frame, 2);

    for _ in 0..5 {
        run_tick(&mut game, no_events());
        assert_eq!(game.world.positions[0].unwrap().0, Point { x: 20, y: 0 });
        assert_eq!(game.world.animations[0].as_ref().unwrap().current_frame, 2);
    }
}

#[test]
fn quit_terminates_at_any_tick_and_leaves_state() {
    let mut game = Game::new();
    for _ in 0..3 {
        run_tick(&mut game, vec![down(Key::Down)]);
    }
    let pos_before = game.world.positions[0].unwrap();
    let color_before = game.color_index;

    let res = run_tick(&mut game, vec![down(Key::Left), InputEvent::Quit]);
    assert!(matches!(res, StepResult::Terminated));
    assert_eq!(game.world.positions[0].unwrap(), pos_before);
    assert_eq!(game.color_index, color_before);
    assert_eq!(game.world.velocities[0].unwrap().direction, Direction::Down);

    let res = run_tick(&mut game, vec![down(Key::Escape)]);
    assert!(matches!(res, StepResult::Terminated));
    assert_eq!(game.world.positions[0].unwrap(), pos_before);
}

#[test]
fn background_color_cycles_and_wraps() {
    let mut game = Game::new();
    assert_eq!(game.color_index, 0);
    // The frame of tick t is cleared at hue step t % 255, starting at 0.
    for tick in 0..300u32 {
        let shown = (tick % 255) as u8;
        let res = run_tick(&mut game, no_events());
        match res {
            StepResult::Frame(plan) => {
                assert_eq!(
                    plan.clear_color,
                    Color {
                        r: shown,
                        g: 64,
                        b: 255 - shown,
                    }
                );
            }
            StepResult::Terminated => panic!("loop left without a quit event"),
        }
        assert_eq!(game.color_index, ((tick + 1) % 255) as u8);
    }
}

#[test]
fn draw_plan_centers_sprite_on_screen() {
    let mut game = Game::new();
    let res = run_tick(&mut game, no_events());
    let plan = match res {
        StepResult::Frame(plan) => plan,
        StepResult::Terminated => panic!("loop left without a quit event"),
    };
    assert_eq!(plan.ops.len(), 1);
    let op = &plan.ops[0];
    assert_eq!(op.sprite_sheet, 0);
    // The idle player still shows frame 0 of the right-walk row.
    assert_eq!(
        op.src,
        Rect {
            x: 0,
            y: 72,
            width: 26,
            height: 36,
        }
    );
    // Centered on position + (width / 2, height / 3).
    assert_eq!(
        op.dst,
        Rect {
            x: 400 - 13,
            y: 200 - 18,
            width: 26,
            height: 36,
        }
    );
}

#[test]
fn render_skips_entities_without_sprites() {
    let mut world = World::new();
    world.add_entity(Some(Position(Point { x: 0, y: 0 })), None, None, None, false);
    let drawn = world.add_entity(
        Some(Position(Point { x: 6, y: 8 })),
        None,
        Some(Sprite {
            sprite_sheet: 2,
            region: Rect {
                x: 0,
                y: 0,
                width: 10,
                height: 10,
            },
        }),
        None,
        false,
    );
    world.add_entity(
        None,
        Some(Velocity {
            speed: 0,
            direction: Direction::Up,
        }),
        None,
        None,
        false,
    );
    let plan = render(
        Color { r: 1, g: 2, b: 3 },
        WIDTH,
        HEIGHT,
        &world,
    );
    assert_eq!(plan.clear_color, Color { r: 1, g: 2, b: 3 });
    assert_eq!(plan.ops.len(), 1);
    assert_eq!(plan.ops[0].sprite_sheet, 2);
    assert_eq!(plan.ops[0].dst.x, 6 + 400 - 5);
    assert_eq!(plan.ops[0].dst.y, 8 + 200 - 5);
    let _ = drawn;
}
