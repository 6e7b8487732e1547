use rand::rngs::StdRng;
use rand::SeedableRng;
use snake::food::{first_free_cell, food_spot_free, random_inner_position, spawn_food};
use snake::game::Game;
use snake::grid::{Bounds, Direction, Position, CELL_SIZE, GRID_HEIGHT, GRID_WIDTH};
use snake::snake::Snake;

fn pos(x: i32, y: i32) -> Position {
    Position::new(x, y)
}

fn in_inner(b: &Bounds, p: Position) -> bool {
    -b.half_width + 1 < p.x && p.x < b.half_width - 1 && -b.half_height + 1 < p.y && p.y < b.half_height - 1
}

#[test]
fn standard_game_starts_at_origin() {
    let g = Game::standard();
    assert_eq!(g.snake.chain(), &vec![pos(0, 0), pos(-1, 0)]);
    assert_eq!(g.snake.direction(), Direction::Right);
    assert_eq!(g.bounds, Bounds { half_width: 20, half_height: 15 });
    assert!(g.food_gone());
    assert!(!g.over);
    assert_eq!(GRID_WIDTH, 40);
    assert_eq!(GRID_HEIGHT, 30);
}

#[test]
fn one_tick_without_input_moves_right() {
    let mut g = Game::standard();
    assert!(!g.tick());
    assert_eq!(g.snake.head(), pos(1, 0));
    assert_eq!(g.snake.chain(), &vec![pos(1, 0), pos(0, 0)]);
}

#[test]
fn up_then_right_before_tick_ends_heading_right() {
    let mut g = Game::standard();
    g.set_direction(Direction::Up);
    assert_eq!(g.snake.direction(), Direction::Up);
    g.set_direction(Direction::Right);
    assert_eq!(g.snake.direction(), Direction::Right);
    assert!(!g.tick());
    assert_eq!(g.snake.head(), pos(1, 0));
}

#[test]
fn right_is_ignored_while_heading_left() {
    let mut s = Snake::new(pos(0, 0), Direction::Left);
    assert_eq!(s.chain(), &vec![pos(0, 0), pos(1, 0)]);
    s.set_direction(Direction::Right);
    assert_eq!(s.direction(), Direction::Left);
}

#[test]
fn reversal_is_ignored_for_every_heading() {
    for d in [Direction::Up, Direction::Down, Direction::Left, Direction::Right] {
        let mut s = Snake::new(pos(0, 0), d);
        s.set_direction(d.opposite());
        assert_eq!(s.direction(), d);
        s.advance();
        assert_eq!(s.head(), pos(0, 0).step(d));
    }
}

#[test]
fn death_on_reaching_half_width() {
    let mut g = Game::standard();
    for i in 1..20 {
        assert!(!g.tick(), "died early at tick {}", i);
        assert_eq!(g.snake.head(), pos(i, 0));
    }
    assert!(g.tick());
    assert_eq!(g.snake.head(), pos(20, 0));
    assert!(g.over);
    assert!(!g.tick());
    assert_eq!(g.snake.head(), pos(20, 0));
    g.set_direction(Direction::Up);
    assert_eq!(g.snake.direction(), Direction::Right);
}

#[test]
fn death_on_lower_wall() {
    let mut g = Game::standard();
    g.set_direction(Direction::Down);
    for _ in 1..15 {
        assert!(!g.tick());
    }
    assert!(g.tick());
    assert_eq!(g.snake.head(), pos(0, -15));
}

#[test]
fn death_on_own_body() {
    let chain = vec![pos(0, 0), pos(1, 0), pos(1, 1), pos(0, 1), pos(-1, 1)];
    let snake = Snake::from_chain(chain, Direction::Up).unwrap();
    let mut g = Game { snake, food: None, bounds: Bounds::from_grid(40, 30), over: false };
    assert!(g.tick());
    assert_eq!(g.snake.chain(), &vec![pos(0, 1), pos(0, 0), pos(1, 0), pos(1, 1), pos(0, 1)]);
    assert!(g.snake.bites_itself());
}

#[test]
fn interior_snake_is_alive() {
    let b = Bounds::from_grid(40, 30);
    let s = Snake::from_chain(vec![pos(19, 14), pos(18, 14), pos(17, 14)], Direction::Right).unwrap();
    assert!(!s.is_dead(&b));
    let s = Snake::from_chain(vec![pos(-20, 0), pos(-19, 0)], Direction::Left).unwrap();
    assert!(s.is_dead(&b));
    let s = Snake::from_chain(vec![pos(0, 15), pos(0, 14)], Direction::Up).unwrap();
    assert!(s.is_dead(&b));
}

#[test]
fn short_chain_is_refused() {
    assert!(Snake::from_chain(vec![pos(0, 0)], Direction::Up).is_none());
    assert!(Snake::from_chain(vec![], Direction::Up).is_none());
}

#[test]
fn movement_follows_the_leader() {
    let chain = vec![pos(2, 2), pos(2, 1), pos(1, 1), pos(0, 1)];
    let mut s = Snake::from_chain(chain.clone(), Direction::Left).unwrap();
    s.advance();
    assert_eq!(s.len(), chain.len());
    assert_eq!(s.head(), pos(1, 2));
    for i in 1..chain.len() {
        assert_eq!(s.chain()[i], chain[i - 1]);
    }
}

#[test]
fn eating_grows_the_snake() {
    let mut g = Game::standard();
    g.food = Some(pos(3, 3));
    let mut rng = StdRng::seed_from_u64(7);
    for _ in 0..3 {
        assert!(!g.tick());
        assert!(!g.frame(None, &mut rng));
    }
    assert_eq!(g.snake.len(), 2);
    g.set_direction(Direction::Up);
    for _ in 0..3 {
        assert!(!g.tick());
    }
    assert_eq!(g.snake.head(), pos(3, 3));
    assert!(g.frame(None, &mut rng));
    assert_eq!(g.snake.len(), 3);
    assert_eq!(g.snake.chain(), &vec![pos(3, 3), pos(3, 2), pos(3, 3)]);
    let food = g.food.unwrap();
    assert!(!g.snake.chain().contains(&food));
    assert!(in_inner(&g.bounds, food));
}

#[test]
fn try_eat_needs_food_under_head() {
    let mut g = Game::standard();
    assert!(!g.try_eat());
    g.food = Some(pos(1, 0));
    assert!(!g.food_under_head());
    assert!(!g.try_eat());
    assert_eq!(g.food, Some(pos(1, 0)));
    g.tick();
    assert!(g.food_under_head());
    assert!(g.try_eat());
    assert!(g.food_gone());
    assert_eq!(g.snake.chain(), &vec![pos(1, 0), pos(0, 0), pos(1, 0)]);
}

#[test]
fn length_never_shrinks_and_grows_by_meals() {
    let mut g = Game::standard();
    let mut rng = StdRng::seed_from_u64(11);
    let turns = [Direction::Up, Direction::Left, Direction::Down, Direction::Right];
    let mut meals = 0;
    let mut len = g.snake.len();
    for t in 0..60 {
        if t % 4 == 0 {
            g.set_direction(turns[(t / 4) % 4]);
        }
        if let Some(_) = g.food {
            if t % 3 == 0 {
                g.food = Some(g.snake.head());
            }
        }
        if g.frame(None, &mut rng) {
            meals += 1;
        }
        assert!(g.snake.len() >= len);
        len = g.snake.len();
        if g.tick() {
            break;
        }
        assert_eq!(g.snake.len(), len);
    }
    assert!(meals > 0);
    assert_eq!(g.snake.len(), 2 + meals);
}

#[test]
fn steer_reads_keys_in_order() {
    let mut s = Snake::new(pos(0, 0), Direction::Right);
    s.steer(true, false, true, false);
    assert_eq!(s.direction(), Direction::Up);
    s.steer(false, true, false, false);
    assert_eq!(s.direction(), Direction::Up);
    s.steer(false, true, true, false);
    assert_eq!(s.direction(), Direction::Left);
    s.steer(false, false, false, true);
    assert_eq!(s.direction(), Direction::Left);
    s.steer(false, false, false, false);
    assert_eq!(s.direction(), Direction::Left);
}

#[test]
fn food_is_never_on_snake_or_outer_ring() {
    let b = Bounds::from_grid(8, 8);
    let snake = Snake::from_chain(
        vec![pos(0, 0), pos(1, 0), pos(2, 0), pos(2, 1), pos(1, 1), pos(0, 1), pos(-1, 1)],
        Direction::Down,
    )
    .unwrap();
    let mut rng = StdRng::seed_from_u64(3);
    for _ in 0..300 {
        let p = spawn_food(&mut rng, &snake, &b).unwrap();
        assert!(in_inner(&b, p));
        assert!(p.x.abs() <= 2 && p.y.abs() <= 2);
        assert!(!snake.chain().contains(&p));
        assert!(food_spot_free(&snake, &b, p));
    }
}

#[test]
fn random_positions_cover_the_inner_field() {
    let b = Bounds::from_grid(40, 30);
    let mut rng = StdRng::seed_from_u64(5);
    let mut seen_other = false;
    for _ in 0..200 {
        let p = random_inner_position(&mut rng, &b).unwrap();
        assert!(p.x >= -18 && p.x <= 18 && p.y >= -13 && p.y <= 13);
        if p.x != -18 || p.y != -13 {
            seen_other = true;
        }
    }
    assert!(seen_other);
    assert!(random_inner_position(&mut rng, &Bounds::from_grid(3, 30)).is_none());
}

#[test]
fn spot_check_rejects_ring_and_body() {
    let b = Bounds::from_grid(40, 30);
    let snake = Snake::new(pos(0, 0), Direction::Right);
    assert!(food_spot_free(&snake, &b, pos(5, 5)));
    assert!(!food_spot_free(&snake, &b, pos(0, 0)));
    assert!(!food_spot_free(&snake, &b, pos(-1, 0)));
    assert!(!food_spot_free(&snake, &b, pos(19, 0)));
    assert!(!food_spot_free(&snake, &b, pos(0, -14)));
    assert!(food_spot_free(&snake, &b, pos(18, 13)));
}

#[test]
fn first_free_cell_walks_in_order() {
    let b = Bounds::from_grid(6, 6);
    let snake = Snake::from_chain(vec![pos(-1, -1), pos(-1, 0)], Direction::Up).unwrap();
    assert_eq!(first_free_cell(&snake, &b), Some(pos(-1, 1)));
}

#[test]
fn full_field_gets_no_food() {
    let b = Bounds::from_grid(4, 4);
    let mut g = Game::new(b);
    let mut rng = StdRng::seed_from_u64(1);
    assert!(!g.spawn_food(&mut rng));
    assert!(g.food_gone());
    let snake = Snake::from_chain(vec![pos(1, 1), pos(1, 0)], Direction::Up).unwrap();
    assert_eq!(spawn_food(&mut rng, &snake, &b), Some(pos(0, 0)));
    assert_eq!(first_free_cell(&Snake::new(pos(0, 0), Direction::Up), &b), None);
}

#[test]
fn no_food_after_game_over() {
    let mut g = Game::standard();
    g.over = true;
    let mut rng = StdRng::seed_from_u64(2);
    assert!(!g.spawn_food(&mut rng));
    assert!(g.food_gone());
}

#[test]
fn screen_projection_scales_by_cell_size() {
    assert_eq!(pos(3, -2).to_screen(CELL_SIZE), (60, -40));
    assert_eq!(pos(0, 0).to_screen(CELL_SIZE), (0, 0));
    assert_eq!(pos(i32::MIN, i32::MAX).to_screen(2), (2 * i32::MIN as i64, 2 * i32::MAX as i64));
}

#[test]
fn step_moves_one_cell() {
    assert_eq!(pos(0, 0).step(Direction::Up), pos(0, 1));
    assert_eq!(pos(0, 0).step(Direction::Down), pos(0, -1));
    assert_eq!(pos(0, 0).step(Direction::Left), pos(-1, 0));
    assert_eq!(pos(0, 0).step(Direction::Right), pos(1, 0));
    assert_eq!(Direction::Up.opposite(), Direction::Down);
    assert_eq!(Direction::Left.opposite(), Direction::Right);
}
