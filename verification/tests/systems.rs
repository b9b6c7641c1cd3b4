use game_tutorial::animator::{advance_animation, Animator};
use game_tutorial::components::{
    Direction, MovementAnimation, Player, Point, Position, Rect, Sprite, Velocity,
};
use game_tutorial::game::{
    create_character_animation_frames, direction_spritesheet_row, MovementCommand,
};
use game_tutorial::keyboard::Keyboard;
use game_tutorial::physics::{apply_velocity, Physics};
use game_tutorial::world::World;

fn player_frames(direction: Direction) -> Vec<Sprite> {
    create_character_animation_frames(
        0,
        Rect {
            x: 0,
            y: 0,
            width: 26,
            height: 36,
        },
        direction,
    )
}

fn player_animation() -> MovementAnimation {
    MovementAnimation {
        current_frame: 0,
        up_frames: player_frames(Direction::Up),
        down_frames: player_frames(Direction::Down),
        left_frames: player_frames(Direction::Left),
        right_frames: player_frames(Direction::Right),
    }
}

#[test]
fn physics_moves_each_direction() {
    let cases = [
        (Direction::Right, 7, 0),
        (Direction::Left, -7, 0),
        (Direction::Down, 0, 7),
        (Direction::Up, 0, -7),
    ];
    for (direction, dx, dy) in cases {
        let mut p = Position(Point { x: 100, y: 200 });
        let v = Velocity {
            speed: 7,
            direction,
        };
        apply_velocity(&mut p, &v);
        assert_eq!(p.0.x, 100 + dx);
        assert_eq!(p.0.y, 200 + dy);
    }
}

#[test]
fn physics_zero_speed_holds_position() {
    for direction in [
        Direction::Up,
        Direction::Down,
        Direction::Left,
        Direction::Right,
    ] {
        let mut p = Position(Point { x: -5, y: 9 });
        let v = Velocity {
            speed: 0,
            direction,
        };
        apply_velocity(&mut p, &v);
        assert_eq!(p.0.x, -5);
        assert_eq!(p.0.y, 9);
    }
}

#[test]
fn physics_system_moves_only_entities_with_velocity() {
    let mut world = World::new();
    let moving = world.add_entity(
        Some(Position(Point { x: 1, y: 2 })),
        Some(Velocity {
            speed: 10,
            direction: Direction::Down,
        }),
        None,
        None,
        false,
    );
    let still = world.add_entity(Some(Position(Point { x: 3, y: 4 })), None, None, None, false);
    assert_eq!(moving, 0);
    assert_eq!(still, 1);
    let mut physics = Physics;
    physics.run(&mut world);
    assert_eq!(world.positions[moving].unwrap().0, Point { x: 1, y: 12 });
    assert_eq!(world.positions[still].unwrap().0, Point { x: 3, y: 4 });
}

#[test]
fn keyboard_applies_commands_to_controlled_entities() {
    let mut world = World::new();
    let controlled = world.add_entity(
        None,
        Some(Velocity {
            speed: 0,
            direction: Direction::Right,
        }),
        None,
        None,
        true,
    );
    let free = world.add_entity(
        None,
        Some(Velocity {
            speed: 0,
            direction: Direction::Right,
        }),
        None,
        None,
        false,
    );
    let mut keyboard = Keyboard;

    keyboard.run(&mut world, &Some(MovementCommand::Move(Direction::Left)));
    let v = world.velocities[controlled].unwrap();
    assert_eq!(v.speed, 10);
    assert_eq!(v.direction, Direction::Left);
    assert_eq!(world.velocities[free].unwrap().speed, 0);
    assert_eq!(world.velocities[free].unwrap().direction, Direction::Right);

    keyboard.run(&mut world, &None);
    assert_eq!(world.velocities[controlled].unwrap().speed, 10);

    keyboard.run(&mut world, &Some(MovementCommand::Stop));
    let v = world.velocities[controlled].unwrap();
    assert_eq!(v.speed, 0);
    assert_eq!(v.direction, Direction::Left);
}

#[test]
fn animator_cycles_frames_in_order() {
    let mut anim = player_animation();
    let expected = [1, 2, 0, 1, 2, 0];
    for want in expected {
        let shown = advance_animation(&mut anim, Direction::Right);
        assert_eq!(anim.current_frame, want);
        assert_eq!(shown, anim.right_frames[want as usize]);
    }
}

#[test]
fn animator_system_holds_frame_at_zero_speed() {
    let mut world = World::new();
    let anim = player_animation();
    let sprite = anim.right_frames[0];
    let id = world.add_entity(
        None,
        Some(Velocity {
            speed: 0,
            direction: Direction::Right,
        }),
        Some(sprite),
        Some(anim),
        true,
    );
    let mut animator = Animator;
    animator.run(&mut world);
    assert_eq!(world.animations[id].as_ref().unwrap().current_frame, 0);
    assert_eq!(world.sprites[id].unwrap(), sprite);
}

#[test]
fn animator_system_advances_moving_entities() {
    let mut world = World::new();
    let anim = player_animation();
    let sprite = anim.down_frames[0];
    let expected = anim.down_frames[1];
    let id = world.add_entity(
        None,
        Some(Velocity {
            speed: 10,
            direction: Direction::Down,
        }),
        Some(sprite),
        Some(anim),
        true,
    );
    let mut animator = Animator;
    animator.run(&mut world);
    assert_eq!(world.animations[id].as_ref().unwrap().current_frame, 1);
    assert_eq!(world.sprites[id].unwrap(), expected);
}

#[test]
fn frame_generation_tiles_and_offsets() {
    let frames = player_frames(Direction::Up);
    assert_eq!(frames.len(), 3);
    for (i, frame) in frames.iter().enumerate() {
        assert_eq!(frame.sprite_sheet, 0);
        assert_eq!(frame.region.x, 26 * i as i32);
        assert_eq!(frame.region.y, 36 * 3);
        assert_eq!(frame.region.width, 26);
        assert_eq!(frame.region.height, 36);
    }
    let down = player_frames(Direction::Down);
    assert_eq!(down[0].region.y, 0);
    let left = player_frames(Direction::Left);
    assert_eq!(left[0].region.y, 36);
    let right = player_frames(Direction::Right);
    assert_eq!(right[0].region.y, 72);
}

#[test]
fn frame_generation_is_deterministic() {
    let top_left = Rect {
        x: 13,
        y: 5,
        width: 17,
        height: 20,
    };
    let a = create_character_animation_frames(4, top_left, Direction::Left);
    let b = create_character_animation_frames(4, top_left, Direction::Left);
    assert_eq!(a, b);
}

#[test]
fn spritesheet_row_mapping_is_fixed() {
    assert_eq!(direction_spritesheet_row(Direction::Down), 0);
    assert_eq!(direction_spritesheet_row(Direction::Left), 1);
    assert_eq!(direction_spritesheet_row(Direction::Right), 2);
    assert_eq!(direction_spritesheet_row(Direction::Up), 3);
}

#[test]
fn player_record_carries_plain_fields() {
    let player = Player {
        position: Point { x: 4, y: 5 },
        sprite: Rect {
            x: 0,
            y: 0,
            width: 26,
            height: 36,
        },
        speed: 0,
        direction: Direction::Right,
        current_frame: 0,
    };
    assert_eq!(player.position.x, 4);
    assert_eq!(player.sprite.width, 26);
    assert_eq!(player.current_frame, 0);
}
