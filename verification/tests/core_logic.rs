use snake_core::direction::Direction;
use snake_core::food::Food;
use snake_core::grid::{Cell, Color};
use snake_core::obstacle::Obstacle;
use snake_core::player::Player;

fn all_directions() -> Vec<Direction> {
    vec![Direction::Right, Direction::Down, Direction::Left, Direction::Up]
}

#[test]
fn opposite_is_symmetric_over_all_pairs() {
    for a in all_directions() {
        for b in all_directions() {
            assert_eq!(a.is_opposite(&b), b.is_opposite(&a));
        }
    }
}

#[test]
fn opposite_is_false_on_self_compare() {
    for a in all_directions() {
        assert!(!a.is_opposite(&a));
    }
}

#[test]
fn opposite_holds_exactly_for_the_four_reversing_pairs() {
    assert!(Direction::Right.is_opposite(&Direction::Left));
    assert!(Direction::Left.is_opposite(&Direction::Right));
    assert!(Direction::Up.is_opposite(&Direction::Down));
    assert!(Direction::Down.is_opposite(&Direction::Up));
    assert!(!Direction::Right.is_opposite(&Direction::Up));
    assert!(!Direction::Right.is_opposite(&Direction::Down));
    assert!(!Direction::Left.is_opposite(&Direction::Up));
    assert!(!Direction::Left.is_opposite(&Direction::Down));
}

#[test]
fn grow_then_one_move_adds_exactly_one_segment() {
    let mut p = Player::new(10, 10, Direction::Right);
    p.grow();
    // repeated requests before the next move collapse into one
    p.grow();
    p.grow();
    p.move_player();
    assert_eq!(p.body.len(), 1);
    assert_eq!(p.body[0], (10, 10));
    assert_eq!((p.x, p.y), (11, 10));
    assert!(!p.grow);
}

#[test]
fn move_without_growth_shifts_body_behind_head() {
    let mut p = Player::new(10, 10, Direction::Down);
    p.body = vec![(10, 9), (10, 8), (11, 8)];
    p.move_player();
    assert_eq!((p.x, p.y), (10, 11));
    // the former head becomes the first segment; each other segment takes
    // its predecessor's prior position; the length is unchanged
    assert_eq!(p.body, vec![(10, 10), (10, 9), (10, 8)]);
}

#[test]
fn move_with_empty_body_moves_head_only() {
    let mut p = Player::new(3, 7, Direction::Up);
    p.move_player();
    assert_eq!((p.x, p.y), (3, 6));
    assert!(p.body.is_empty());
}

#[test]
fn moves_follow_each_heading_axis() {
    for (dir, dx, dy) in [
        (Direction::Right, 1, 0),
        (Direction::Left, -1, 0),
        (Direction::Down, 0, 1),
        (Direction::Up, 0, -1),
    ] {
        let mut p = Player::new(20, 20, dir);
        p.move_player();
        assert_eq!((p.x, p.y), (20 + dx, 20 + dy));
    }
}

#[test]
fn self_collision_reported_when_head_overlaps_a_segment() {
    let mut p = Player::new(10, 10, Direction::Right);
    p.body = vec![(11, 10), (10, 10)];
    assert!(p.check_collision());
}

#[test]
fn self_collision_false_without_overlap() {
    let mut p = Player::new(10, 10, Direction::Right);
    p.body = vec![(9, 10), (8, 10)];
    assert!(!p.check_collision());
}

#[test]
fn obstacle_hit_is_boundary_inclusive() {
    let o = Obstacle::new();
    assert_eq!((o.x1, o.y1, o.x2, o.y2), (2, 2, 77, 47));
    // exactly on each border line counts as a hit
    assert!(o.hit_obstacle(&Player::new(2, 20, Direction::Right)));
    assert!(o.hit_obstacle(&Player::new(77, 20, Direction::Right)));
    assert!(o.hit_obstacle(&Player::new(20, 2, Direction::Right)));
    assert!(o.hit_obstacle(&Player::new(20, 47, Direction::Right)));
    // strictly interior points do not
    assert!(!o.hit_obstacle(&Player::new(3, 3, Direction::Right)));
    assert!(!o.hit_obstacle(&Player::new(76, 46, Direction::Right)));
    assert!(!o.hit_obstacle(&Player::new(40, 25, Direction::Right)));
}

#[test]
fn obstacle_render_is_deterministic() {
    let o = Obstacle::new();
    let first = o.render();
    let second = o.render();
    assert_eq!(first, second);
}

#[test]
fn obstacle_render_draws_both_walls_of_every_row_and_column() {
    let o = Obstacle::new();
    let cells = o.render();
    // two cells per row of the vertical pass, two per column of the
    // horizontal pass
    assert_eq!(cells.len(), (2 * 46 + 2 * 76) as usize);
    assert_eq!(cells[0], Cell { x: 2, y: 2, fg: Color::Red, bg: Color::Black, glyph: '|' });
    assert_eq!(cells[1], Cell { x: 77, y: 2, fg: Color::Red, bg: Color::Black, glyph: '|' });
    assert_eq!(cells[91], Cell { x: 77, y: 47, fg: Color::Red, bg: Color::Black, glyph: '|' });
    assert_eq!(cells[92], Cell { x: 2, y: 2, fg: Color::Red, bg: Color::Black, glyph: '-' });
    assert_eq!(cells[93], Cell { x: 2, y: 47, fg: Color::Red, bg: Color::Black, glyph: '-' });
    let last = cells[cells.len() - 1];
    assert_eq!(last, Cell { x: 77, y: 47, fg: Color::Red, bg: Color::Black, glyph: '-' });
}

#[test]
fn player_render_draws_head_then_body_in_order() {
    let mut p = Player::new(10, 10, Direction::Right);
    p.body = vec![(9, 10), (8, 10)];
    let cells = p.render();
    assert_eq!(cells.len(), 3);
    assert_eq!(cells[0], Cell { x: 10, y: 10, fg: Color::Yellow, bg: Color::Black, glyph: '█' });
    assert_eq!(cells[1], Cell { x: 9, y: 10, fg: Color::Yellow, bg: Color::Black, glyph: '█' });
    assert_eq!(cells[2], Cell { x: 8, y: 10, fg: Color::Yellow, bg: Color::Black, glyph: '█' });
}

#[test]
fn food_render_draws_its_own_cell() {
    let f = Food::at(12, 34);
    let c = f.render();
    assert_eq!(c, Cell { x: 12, y: 34, fg: Color::Yellow, bg: Color::Black, glyph: '█' });
}

#[test]
fn fresh_food_always_lands_in_the_spawn_region() {
    let mut rng = bracket_random::prelude::RandomNumberGenerator::seeded(7);
    for _ in 0..200 {
        let f = Food::new(&mut rng);
        assert!((3..76).contains(&f.x));
        assert!((3..46).contains(&f.y));
    }
}
