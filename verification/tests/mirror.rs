use botlink::config::{BallConfig, FieldConfig, GameConfig, GoalConfig, PlayerConfig, NUM_PLAYERS};
use botlink::state::{
    mirror_player_id, mirror_pos, BallPossessionState, BallState, BallStagnationState, GameState,
    PlayerAction, PlayerState, StateOption, Team, TeamPair,
};
use botlink::util::Vec2;

fn test_config(width: u32, height: u32) -> GameConfig {
    GameConfig {
        max_ticks: 1000,
        endgame_ticks: 100,
        spawn_ball_dist: 3,
        ball: BallConfig {
            friction: 9,
            radius: 2,
            capture_ticks: 3,
            stagnation_radius: 4,
            stagnation_ticks: 5,
        },
        player: PlayerConfig {
            radius: 1,
            pickup_radius: 2,
            speed: 3,
            pass_speed: 4,
            pass_error: 5,
            possession_slowdown: 6,
        },
        field: FieldConfig { width, height },
        goal: GoalConfig {
            normal_height: 20,
            thickness: 2,
            penalty_box_width: 10,
            penalty_box_height: 30,
            penalty_box_radius: 5,
        },
    }
}

fn test_state(conf: &GameConfig) -> GameState {
    let mut players = Vec::new();
    for i in 0..(2 * NUM_PLAYERS) {
        players.push(PlayerState {
            id: i,
            pos: Vec2::new(10 + i as i64, 7 + i as i64),
            dir: Vec2::new(1 - i as i64, 2),
            speed: 3,
            radius: 1,
            pickup_radius: 2,
        });
    }
    GameState {
        tick: 42,
        ball: BallState {
            pos: Vec2::new(30, 12),
            vel: Vec2::new(-4, 9),
            radius: 2,
        },
        ball_possession: BallPossessionState::Possessed {
            owner: 6,
            team: Team::Other,
            capture_ticks: 11,
        },
        ball_stagnation: BallStagnationState {
            center: Vec2::new(33, 14),
            tick: 40,
        },
        players,
        score: TeamPair::new(2, 5),
    }
}

#[test]
fn position_mirror_is_frame_correct() {
    let conf = test_config(100, 60);
    let mut p = Vec2::new(20, 10);
    mirror_pos(&mut p, &conf);
    assert_eq!(p, Vec2::new(80, 10));
    mirror_pos(&mut p, &conf);
    assert_eq!(p, Vec2::new(20, 10));
}

#[test]
fn direction_mirror_negates_x_only() {
    let conf = test_config(100, 60);
    let mut d = Vec2::new(7, -3);
    d.mirror(&conf);
    assert_eq!(d, Vec2::new(-7, -3));
    d.mirror(&conf);
    assert_eq!(d, Vec2::new(7, -3));
}

#[test]
fn player_id_mirror_crosses_halves() {
    for (before, after) in [(0, 4), (3, 7), (4, 0), (7, 3)] {
        let mut id: u32 = before;
        mirror_player_id(&mut id);
        assert_eq!(id, after);
        mirror_player_id(&mut id);
        assert_eq!(id, before);
    }
}

#[test]
fn team_mirror_flips() {
    let conf = test_config(100, 60);
    let mut t = Team::Me;
    t.mirror(&conf);
    assert_eq!(t, Team::Other);
    t.mirror(&conf);
    assert_eq!(t, Team::Me);
}

#[test]
fn team_pair_mirror_swaps_slots() {
    let conf = test_config(100, 60);
    let mut score: TeamPair<u32> = TeamPair::new(2, 5);
    score.mirror(&conf);
    assert_eq!(score.me, 5);
    assert_eq!(score.other, 2);
    score.mirror(&conf);
    assert_eq!(score, TeamPair::new(2, 5));
}

#[test]
fn action_mirror_covers_pass_target() {
    let conf = test_config(100, 60);
    let mut a = PlayerAction {
        dir: Vec2::new(5, 6),
        pass: StateOption::Present(Vec2::new(-2, 4)),
    };
    let before = a;
    a.mirror(&conf);
    assert_eq!(a.dir, Vec2::new(-5, 6));
    assert_eq!(a.pass, StateOption::Present(Vec2::new(2, 4)));
    a.mirror(&conf);
    assert_eq!(a, before);

    let mut b = PlayerAction {
        dir: Vec2::new(1, 1),
        pass: StateOption::Absent,
    };
    b.mirror(&conf);
    assert_eq!(b.pass, StateOption::Absent);
}

#[test]
fn possession_mirror_cases() {
    let conf = test_config(100, 60);

    let mut possessed = BallPossessionState::Possessed {
        owner: 6,
        team: Team::Other,
        capture_ticks: 11,
    };
    possessed.mirror(&conf);
    assert_eq!(
        possessed,
        BallPossessionState::Possessed {
            owner: 2,
            team: Team::Me,
            capture_ticks: 11,
        }
    );

    let mut passing = BallPossessionState::Passing { team: Team::Me };
    passing.mirror(&conf);
    assert_eq!(passing, BallPossessionState::Passing { team: Team::Other });

    let mut free = BallPossessionState::Free;
    free.mirror(&conf);
    assert_eq!(free, BallPossessionState::Free);
}

#[test]
fn player_array_rotates_by_team_size() {
    let conf = test_config(100, 60);
    let mut state = test_state(&conf);
    let before = state.clone();
    state.mirror(&conf);

    let n = NUM_PLAYERS as usize;
    for i in 0..(2 * n) {
        let src = &before.players[(i + n) % (2 * n)];
        let dst = &state.players[i];
        // the entry moved by NUM_PLAYERS slots and its identifier crossed halves
        let expected_id = if src.id < NUM_PLAYERS {
            src.id + NUM_PLAYERS
        } else {
            src.id - NUM_PLAYERS
        };
        assert_eq!(dst.id, expected_id);
        assert_eq!(dst.pos, Vec2::new(100 - src.pos.x, src.pos.y));
        assert_eq!(dst.dir, Vec2::new(-src.dir.x, src.dir.y));
        assert_eq!(dst.speed, src.speed);
        assert_eq!(dst.radius, src.radius);
        assert_eq!(dst.pickup_radius, src.pickup_radius);
    }
}

#[test]
fn whole_state_mirror_is_involutive() {
    let conf = test_config(100, 60);
    let mut state = test_state(&conf);
    let before = state.clone();
    state.mirror(&conf);
    assert_ne!(state, before);
    state.mirror(&conf);
    assert_eq!(state, before);
}

#[test]
fn sub_mirrors_are_involutive() {
    let conf = test_config(100, 60);

    let mut ball = BallState {
        pos: Vec2::new(30, 12),
        vel: Vec2::new(-4, 9),
        radius: 2,
    };
    let ball0 = ball;
    ball.mirror(&conf);
    assert_eq!(ball.pos, Vec2::new(70, 12));
    assert_eq!(ball.vel, Vec2::new(4, 9));
    ball.mirror(&conf);
    assert_eq!(ball, ball0);

    let mut stag = BallStagnationState {
        center: Vec2::new(33, 14),
        tick: 40,
    };
    let stag0 = stag;
    stag.mirror(&conf);
    assert_eq!(stag.center, Vec2::new(67, 14));
    assert_eq!(stag.tick, 40);
    stag.mirror(&conf);
    assert_eq!(stag, stag0);

    let mut poss = BallPossessionState::Possessed {
        owner: 1,
        team: Team::Me,
        capture_ticks: 0,
    };
    let poss0 = poss;
    poss.mirror(&conf);
    poss.mirror(&conf);
    assert_eq!(poss, poss0);
}

#[test]
fn absolute_right_side_player_appears_canonical() {
    // field 100 x 60: a player at absolute (20, 10) facing (1, 0) on the
    // physical right side reads, in the canonical frame, as standing at
    // (80, 10) facing (-1, 0), with its identifier moved into the own-team
    // half.
    let conf = test_config(100, 60);
    let mut p = PlayerState {
        id: 5,
        pos: Vec2::new(20, 10),
        dir: Vec2::new(1, 0),
        speed: 3,
        radius: 1,
        pickup_radius: 2,
    };
    p.mirror(&conf);
    assert_eq!(p.pos, Vec2::new(80, 10));
    assert_eq!(p.dir, Vec2::new(-1, 0));
    assert_eq!(p.id, 1);
    assert!(p.id < NUM_PLAYERS);
}

#[test]
fn odd_width_position_mirror_is_exact() {
    let conf = test_config(101, 61);
    let mut p = Vec2::new(20, 10);
    mirror_pos(&mut p, &conf);
    assert_eq!(p, Vec2::new(81, 10));
    mirror_pos(&mut p, &conf);
    assert_eq!(p, Vec2::new(20, 10));
}
