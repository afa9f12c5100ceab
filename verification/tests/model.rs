use botlink::config::{BallConfig, FieldConfig, GameConfig, GoalConfig, PlayerConfig, NUM_PLAYERS};
use botlink::state::{BallPossessionState, GameState, StateOption, Team, TeamPair};
use botlink::util::Vec2;

fn test_config() -> GameConfig {
    GameConfig {
        max_ticks: 1000,
        endgame_ticks: 100,
        spawn_ball_dist: 3,
        ball: BallConfig {
            friction: 9,
            radius: 2,
            capture_ticks: 3,
            stagnation_radius: 4,
            stagnation_ticks: 5,
        },
        player: PlayerConfig {
            radius: 1,
            pickup_radius: 2,
            speed: 3,
            pass_speed: 4,
            pass_error: 5,
            possession_slowdown: 6,
        },
        field: FieldConfig {
            width: 100,
            height: 60,
        },
        goal: GoalConfig {
            normal_height: 20,
            thickness: 2,
            penalty_box_width: 10,
            penalty_box_height: 30,
            penalty_box_radius: 5,
        },
    }
}

#[test]
fn field_queries() {
    let conf = test_config();
    assert_eq!(conf.field.center(), Vec2::new(50, 30));
    assert_eq!(conf.field.bottom_right(), Vec2::new(100, 60));
    assert_eq!(conf.field.goal_self(), Vec2::new(0, 30));
    assert_eq!(conf.field.goal_other(), Vec2::new(100, 30));
}

#[test]
fn goal_height_switches_at_endgame() {
    let conf = test_config();
    assert_eq!(conf.goal.current_height(&conf, 0), 20);
    assert_eq!(conf.goal.current_height(&conf, 1000), 20);
    assert_eq!(conf.goal.current_height(&conf, 1001), 30);
}

#[test]
fn initial_state_is_centered_and_level() {
    let conf = test_config();
    let s = GameState::new(&conf);
    assert_eq!(s.tick, 0);
    assert_eq!(s.ball.pos, Vec2::new(50, 30));
    assert_eq!(s.ball.vel, Vec2::new(0, 0));
    assert_eq!(s.ball.radius, conf.ball.radius);
    assert!(matches!(s.ball_possession, BallPossessionState::Free));
    assert_eq!(s.ball_stagnation.center, Vec2::new(50, 30));
    assert_eq!(s.ball_stagnation.tick, 0);
    assert_eq!(s.players.len(), 2 * NUM_PLAYERS as usize);
    for (i, p) in s.players.iter().enumerate() {
        assert_eq!(p.id, i as u32);
        assert_eq!(p.pos, Vec2::new(50, 30));
        assert_eq!(p.dir, Vec2::new(0, 0));
        assert_eq!(p.speed, conf.player.speed);
        assert_eq!(p.radius, conf.player.radius);
        assert_eq!(p.pickup_radius, conf.player.pickup_radius);
    }
    assert_eq!(s.score, TeamPair::new(0, 0));
}

#[test]
fn ball_ownership_queries() {
    let conf = test_config();
    let mut s = GameState::new(&conf);
    assert!(s.is_ball_free());
    assert_eq!(s.ball_owner(), None);

    s.ball_possession = BallPossessionState::Possessed {
        owner: 3,
        team: Team::Me,
        capture_ticks: 1,
    };
    assert!(!s.is_ball_free());
    assert_eq!(s.ball_owner(), Some(3));

    s.ball_possession = BallPossessionState::Passing { team: Team::Other };
    assert!(!s.is_ball_free());
    assert_eq!(s.ball_owner(), None);
}

#[test]
fn player_team_partitions_identifiers() {
    let conf = test_config();
    let s = GameState::new(&conf);
    for id in 0..NUM_PLAYERS {
        assert_eq!(s.player_team(id), Some(Team::Me));
    }
    for id in NUM_PLAYERS..(2 * NUM_PLAYERS) {
        assert_eq!(s.player_team(id), Some(Team::Other));
    }
    assert_eq!(s.player_team(2 * NUM_PLAYERS), None);
    assert_eq!(s.player_team(u32::MAX), None);
}

#[test]
fn teams_split_player_array_in_half() {
    let conf = test_config();
    let s = GameState::new(&conf);
    let halves = s.teams();
    assert_eq!(halves.me.len(), NUM_PLAYERS as usize);
    assert_eq!(halves.other.len(), NUM_PLAYERS as usize);
    for (i, p) in halves.me.iter().enumerate() {
        assert_eq!(p.id, i as u32);
    }
    for (i, p) in halves.other.iter().enumerate() {
        assert_eq!(p.id, NUM_PLAYERS + i as u32);
    }
}

#[test]
fn state_option_converts() {
    assert_eq!(StateOption::Present(7u32).option(), Some(7));
    assert_eq!(StateOption::<u32>::Absent.option(), None);
    assert_eq!(StateOption::<u32>::default(), StateOption::Absent);
}

#[test]
fn team_other_flips() {
    assert_eq!(Team::Me.other(), Team::Other);
    assert_eq!(Team::Other.other(), Team::Me);
}

#[test]
fn team_pair_accessors() {
    let mut p = TeamPair::new(10u32, 20u32);
    assert_eq!(*p.get(Team::Me), 10);
    assert_eq!(*p.get(Team::Other), 20);
    let both = p.iter();
    assert_eq!(*both[0], 10);
    assert_eq!(*both[1], 20);
    p.set(Team::Me, 11);
    p.set(Team::Other, 21);
    assert_eq!(p, TeamPair::new(11, 21));
    let (me, other) = p.iter_mut();
    *me += 1;
    *other += 1;
    assert_eq!(p, TeamPair::new(12, 22));
}

#[test]
fn vector_basics() {
    let v = Vec2::new(3, -4);
    assert_eq!(v.x, 3);
    assert_eq!(v.y, -4);
    assert_eq!(Vec2::zero(), Vec2::new(0, 0));
    assert_eq!(Vec2::default(), Vec2::zero());
}
