use flappy_dragon::config::{GAP_HIGH, GAP_LOW, MAX_SIZE, MIN_SIZE, SCREEN_HEIGHT};
use flappy_dragon::display::{Color, Draw};
use flappy_dragon::obstacle::Obstacle;
use flappy_dragon::player::Player;

fn brick(column: i32, row: i32) -> Draw {
    Draw::Glyph { column, row, glyph: '|', fg: Color::Red, bg: Color::Black }
}

#[test]
fn size_at_score_zero_is_the_maximum() {
    assert_eq!(Obstacle::new(80, 0).size(), MAX_SIZE);
    assert_eq!(Obstacle::new(80, 0).size(), 20);
}

#[test]
fn size_at_score_one_hundred_is_the_floor() {
    assert_eq!(Obstacle::new(80, 100).size(), MIN_SIZE);
    assert_eq!(Obstacle::new(80, 100).size(), 2);
}

#[test]
fn size_shrinks_by_one_per_point_down_to_the_floor() {
    assert_eq!(Obstacle::new(0, 1).size(), 19);
    assert_eq!(Obstacle::new(0, 5).size(), 15);
    assert_eq!(Obstacle::new(0, 17).size(), 3);
    assert_eq!(Obstacle::new(0, 18).size(), 2);
    assert_eq!(Obstacle::new(0, 19).size(), 2);
    assert_eq!(Obstacle::new(0, i32::MAX).size(), 2);
}

#[test]
fn size_never_grows_with_the_score() {
    let mut last = Obstacle::new(7, 0).size();
    for score in 1..60 {
        let size = Obstacle::new(7, score).size();
        assert!(size <= last);
        assert!(size >= MIN_SIZE);
        last = size;
    }
}

#[test]
fn size_below_score_zero_keeps_growing() {
    assert_eq!(Obstacle::with_gap(0, -5, 25).size(), 25);
    assert_eq!(Obstacle::with_gap(0, 20 - i32::MAX, 25).size(), i32::MAX);
}

#[test]
fn new_is_deterministic() {
    for x in [0, 80, 161, -7, i32::MAX, i32::MIN] {
        for score in [0, 3, 50] {
            let first = Obstacle::new(x, score);
            let second = Obstacle::new(x, score);
            assert_eq!(first.gap_y(), second.gap_y());
            assert_eq!(first.size(), second.size());
            assert_eq!(first.x_pos(), x);
            assert_eq!(second.x_pos(), x);
        }
    }
}

#[test]
fn gap_is_drawn_from_the_generator_seeded_with_the_column() {
    assert_eq!(Obstacle::new(0, 0).gap_y(), 33);
    assert_eq!(Obstacle::new(1, 0).gap_y(), 30);
    assert_eq!(Obstacle::new(2, 0).gap_y(), 19);
    assert_eq!(Obstacle::new(3, 0).gap_y(), 11);
    assert_eq!(Obstacle::new(80, 0).gap_y(), 13);
    assert_eq!(Obstacle::new(161, 0).gap_y(), 17);
    assert_eq!(Obstacle::new(-1, 0).gap_y(), 15);
}

#[test]
fn gap_does_not_depend_on_the_score() {
    for x in [0, 80, 161, 242] {
        let gap = Obstacle::new(x, 0).gap_y();
        for score in [1, 7, 18, 1000] {
            assert_eq!(Obstacle::new(x, score).gap_y(), gap);
        }
    }
}

#[test]
fn gap_stays_in_its_range_and_varies() {
    let mut seen = [false; 64];
    for x in -100..1000 {
        let gap = Obstacle::new(x, 0).gap_y();
        assert!(GAP_LOW <= gap && gap < GAP_HIGH);
        seen[gap as usize] = true;
    }
    assert!(seen.iter().filter(|&&s| s).count() > 10);
}

#[test]
fn with_gap_keeps_column_and_gap() {
    let obstacle = Obstacle::with_gap(10, 15, 25);
    assert_eq!(obstacle.x_pos(), 10);
    assert_eq!(obstacle.gap_y(), 25);
    assert_eq!(obstacle.size(), 5);
}

#[test]
fn new_agrees_with_with_gap() {
    let made = Obstacle::new(80, 4);
    let given = Obstacle::with_gap(80, 4, 13);
    assert_eq!(made.x_pos(), given.x_pos());
    assert_eq!(made.gap_y(), given.gap_y());
    assert_eq!(made.size(), given.size());
}

#[test]
fn player_inside_the_passage_is_not_hit() {
    let obstacle = Obstacle::with_gap(10, 15, 25);
    assert!(!obstacle.hit_obstacle(&Player::new(10, 25)));
}

#[test]
fn player_above_the_passage_is_hit() {
    let obstacle = Obstacle::with_gap(10, 15, 25);
    assert!(obstacle.hit_obstacle(&Player::new(10, 14)));
}

#[test]
fn player_below_the_passage_is_hit() {
    let obstacle = Obstacle::with_gap(10, 15, 25);
    assert!(obstacle.hit_obstacle(&Player::new(10, 36)));
}

#[test]
fn both_ends_of_the_passage_are_free() {
    let obstacle = Obstacle::with_gap(10, 15, 25);
    assert!(!obstacle.hit_obstacle(&Player::new(10, 20)));
    assert!(!obstacle.hit_obstacle(&Player::new(10, 30)));
    assert!(obstacle.hit_obstacle(&Player::new(10, 19)));
    assert!(obstacle.hit_obstacle(&Player::new(10, 31)));
}

#[test]
fn player_in_another_column_is_never_hit() {
    let obstacle = Obstacle::with_gap(10, 15, 25);
    for x in [9, 11, 0, -10, i32::MAX, i32::MIN] {
        for y in [0, 14, 19, 20, 25, 30, 31, 49, 1000, -1000] {
            assert!(!obstacle.hit_obstacle(&Player::new(x, y)));
        }
    }
}

#[test]
fn hit_goes_by_the_row_the_player_is_in() {
    let obstacle = Obstacle::with_gap(12, 15, 25);
    // Two steps from row 30 leave the player at 30.6 rows: still row 30.
    let mut player = Player::new(10, 30);
    player.gravity_and_move();
    player.gravity_and_move();
    assert_eq!(player.x_pos(), 12);
    assert_eq!(player.depth(), 306);
    assert!(!obstacle.hit_obstacle(&player));
    // Two more from row 30 in the column before reach row 31.
    let mut player = Player::new(8, 30);
    for _ in 0..4 {
        player.gravity_and_move();
    }
    assert_eq!(player.x_pos(), 12);
    assert_eq!(player.depth(), 320);
    assert!(obstacle.hit_obstacle(&player));
}

#[test]
fn hit_test_with_extreme_values_does_not_overflow() {
    let obstacle = Obstacle::with_gap(i32::MAX, 20 - i32::MAX, i32::MAX);
    assert!(obstacle.hit_obstacle(&Player::new(i32::MAX, i32::MIN)));
    assert!(!obstacle.hit_obstacle(&Player::new(i32::MAX, i32::MAX)));
    let obstacle = Obstacle::with_gap(i32::MIN, 20 - i32::MAX, i32::MIN);
    assert!(!obstacle.hit_obstacle(&Player::new(i32::MIN, -5)));
    assert!(obstacle.hit_obstacle(&Player::new(i32::MIN, 0)));
}

#[test]
fn wall_is_drawn_above_and_below_the_passage() {
    let obstacle = Obstacle::with_gap(20, 15, 25);
    let draws = obstacle.render(10);
    assert_eq!(draws.len(), 39);
    for row in 0..20 {
        assert_eq!(draws[row as usize], brick(10, row));
    }
    for row in 31..50 {
        assert_eq!(draws[(row - 11) as usize], brick(10, row));
    }
}

#[test]
fn wall_off_screen_draws_nothing() {
    let obstacle = Obstacle::with_gap(20, 15, 25);
    assert!(obstacle.render(21).is_empty());
    assert!(obstacle.render(-60).is_empty());
    assert!(obstacle.render(i32::MAX).is_empty());
    assert!(obstacle.render(i32::MIN).is_empty());
}

#[test]
fn wall_at_the_edges_of_the_screen_is_drawn() {
    let obstacle = Obstacle::with_gap(20, 15, 25);
    let left = obstacle.render(20);
    assert_eq!(left.len(), 39);
    assert_eq!(left[0], brick(0, 0));
    let right = obstacle.render(-59);
    assert_eq!(right.len(), 39);
    assert_eq!(right[38], brick(79, 49));
}

#[test]
fn passage_reaching_past_the_top_leaves_only_the_lower_wall() {
    let obstacle = Obstacle::with_gap(80, 0, 13);
    let draws = obstacle.render(5);
    assert_eq!(draws.len(), 16);
    assert_eq!(draws[0], brick(75, 34));
    assert_eq!(draws[15], brick(75, 49));
}

#[test]
fn passage_reaching_past_the_bottom_leaves_only_the_upper_wall() {
    let obstacle = Obstacle::with_gap(80, 0, 39);
    let draws = obstacle.render(5);
    assert_eq!(draws.len(), 19);
    assert_eq!(draws[0], brick(75, 0));
    assert_eq!(draws[18], brick(75, 18));
}

#[test]
fn passage_wider_than_the_screen_leaves_no_wall() {
    let obstacle = Obstacle::with_gap(80, -20, 25);
    assert_eq!(obstacle.size(), 40);
    assert!(obstacle.render(5).is_empty());
}

#[test]
fn passage_outside_the_screen_leaves_a_full_wall() {
    let below = Obstacle::with_gap(80, 18, 200);
    let draws = below.render(5);
    assert_eq!(draws.len(), 50);
    assert_eq!(draws[49], brick(75, 49));
    let above = Obstacle::with_gap(80, 18, -200);
    let draws = above.render(5);
    assert_eq!(draws.len(), 50);
    assert_eq!(draws[0], brick(75, 0));
}

#[test]
fn bricks_are_where_the_collisions_are() {
    for (score, gap_y) in [(15, 25), (0, 13), (18, 10), (18, 48), (18, 0), (3, 39)] {
        let obstacle = Obstacle::with_gap(30, score, gap_y);
        let draws = obstacle.render(30);
        for row in 0..SCREEN_HEIGHT {
            let hit = obstacle.hit_obstacle(&Player::new(30, row));
            assert_eq!(hit, draws.contains(&brick(0, row)));
        }
    }
}
