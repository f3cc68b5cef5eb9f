use flappy::bird::Bird;
use flappy::game::{
    input_for_key, remaining_wait, Action, Cause, Game, Input, Key, Status, HOLD_MILLIS,
    JUMP_KEY, TICK_MILLIS,
};
use flappy::pipe::Pipe;
use flappy::screen::{render, Cell, Screen};

fn shown(screen: &Screen) -> Vec<Vec<Cell>> {
    let mut rows = Vec::new();
    for row in 0..screen.height() {
        let mut line = Vec::new();
        for col in 0..screen.width() {
            line.push(screen.get(row, col).unwrap());
        }
        rows.push(line);
    }
    rows
}

fn frame_of(bird: &Bird, pipes: &Vec<Pipe>, width: u16, height: u16) -> Vec<Vec<Cell>> {
    let mut screen = Screen::new(width, height);
    render(&mut screen, bird, pipes);
    shown(&screen)
}

#[test]
fn timing_constants_have_their_values() {
    assert_eq!(TICK_MILLIS, 25);
    assert_eq!(HOLD_MILLIS, 2000);
    assert_eq!(JUMP_KEY, ' ');
}

#[test]
fn escape_quits() {
    assert_eq!(input_for_key(Some(Key::Esc)), Input::Quit);
}

#[test]
fn space_jumps() {
    assert_eq!(input_for_key(Some(Key::Char(' '))), Input::Jump);
}

#[test]
fn other_keys_are_passed_over() {
    assert_eq!(input_for_key(None), Input::Idle);
    assert_eq!(input_for_key(Some(Key::Other)), Input::Idle);
    assert_eq!(input_for_key(Some(Key::Char('q'))), Input::Idle);
    assert_eq!(input_for_key(Some(Key::Char('\n'))), Input::Idle);
}

#[test]
fn remaining_wait_is_the_rest_of_the_tick() {
    assert_eq!(remaining_wait(0), 25);
    assert_eq!(remaining_wait(10), 15);
    assert_eq!(remaining_wait(24), 1);
    assert_eq!(remaining_wait(25), 0);
    assert_eq!(remaining_wait(26), 0);
    assert_eq!(remaining_wait(u64::MAX), 0);
}

#[test]
fn new_game_starts_with_a_centred_bird_and_no_pipe() {
    let game = Game::new(80, 24);
    assert_eq!(game.window_width, 80);
    assert_eq!(game.window_height, 24);
    assert_eq!(game.bird, Bird { x: 6, y: 10, y_vel: 0 });
    assert_eq!(game.pipes, Vec::new());
    assert_eq!(game.status, Status::Running);
    assert!(game.is_running());
}

#[test]
fn free_fall_ends_on_the_ground_after_thirteen_ticks() {
    let mut game = Game::new(80, 24);
    let mut screen = Screen::new(80, 24);
    let mut rows = vec![game.bird.y];
    let mut ticks = 0;
    loop {
        ticks += 1;
        let action = game.advance(Input::Idle, None, &mut screen);
        if action != Action::Continue {
            assert_eq!(action, Action::HoldAndStop);
            break;
        }
        assert_eq!(game.status, Status::Running);
        rows.push(game.bird.y);
        assert!(ticks < 1000);
    }
    assert_eq!(ticks, 13);
    assert_eq!(rows, vec![10, 11, 12, 13, 14, 15, 16, 17, 18, 19, 20, 21, 22]);
    assert_eq!(game.status, Status::Terminated(Cause::GroundCollision));
    assert_eq!(game.bird, Bird { x: 6, y: 22, y_vel: 0 });
    assert_eq!(game.pipes, Vec::new());
    assert!(!game.is_running());
    assert_eq!(shown(&screen), frame_of(&game.bird, &game.pipes, 80, 24));
}

#[test]
fn one_jump_lifts_the_bird_and_wears_off() {
    let mut game = Game::new(80, 24);
    let mut screen = Screen::new(80, 24);
    assert_eq!(game.advance(Input::Jump, None, &mut screen), Action::Continue);
    assert_eq!(game.bird, Bird { x: 6, y: 7, y_vel: 3 });
    let mut rows = Vec::new();
    for _ in 0..6 {
        assert_eq!(game.advance(Input::Idle, None, &mut screen), Action::Continue);
        rows.push(game.bird.y);
    }
    assert_eq!(rows, vec![5, 4, 4, 5, 6, 7]);
    assert_eq!(game.bird.y_vel, 0);
}

#[test]
fn jumps_in_a_row_pile_up() {
    let mut game = Game::new(80, 24);
    let mut screen = Screen::new(80, 24);
    game.advance(Input::Jump, None, &mut screen);
    assert_eq!(game.bird, Bird { x: 6, y: 7, y_vel: 3 });
    game.advance(Input::Jump, None, &mut screen);
    assert_eq!(game.bird, Bird { x: 6, y: 1, y_vel: 6 });
    game.advance(Input::Jump, None, &mut screen);
    assert_eq!(game.bird, Bird { x: 6, y: 0, y_vel: 9 });
    assert_eq!(game.status, Status::Running);
}

#[test]
fn quit_ends_the_game_and_draws_nothing() {
    let mut game = Game::new(80, 24);
    let mut screen = Screen::new(80, 24);
    let action = game.advance(Input::Quit, Some(Pipe { x: 80, gap_y: 5 }), &mut screen);
    assert_eq!(action, Action::Stop);
    assert_eq!(game.status, Status::Terminated(Cause::Quit));
    assert_eq!(game.bird, Bird { x: 6, y: 10, y_vel: 0 });
    assert_eq!(game.pipes, Vec::new());
    assert_eq!(shown(&screen), shown(&Screen::new(80, 24)));
}

#[test]
fn a_game_that_is_over_stays_as_it_is() {
    let mut screen = Screen::new(80, 24);
    for cause in [Cause::Quit, Cause::GroundCollision, Cause::PipeCollision] {
        let mut game = Game::new(80, 24);
        game.pipes.push(Pipe { x: 40, gap_y: 5 });
        game.status = Status::Terminated(cause);
        for input in [Input::Idle, Input::Jump, Input::Quit] {
            let action = game.advance(input, Some(Pipe { x: 80, gap_y: 9 }), &mut screen);
            assert_eq!(action, Action::Stop);
            assert_eq!(game.status, Status::Terminated(cause));
            assert_eq!(game.bird, Bird { x: 6, y: 10, y_vel: 0 });
            assert_eq!(game.pipes, vec![Pipe { x: 40, gap_y: 5 }]);
            assert_eq!(shown(&screen), shown(&Screen::new(80, 24)));
        }
    }
}

#[test]
fn bird_beside_the_gap_ends_the_game() {
    let mut game = Game::new(80, 24);
    let mut screen = Screen::new(80, 24);
    game.bird = Bird { x: 6, y: 5, y_vel: 0 };
    game.pipes = vec![Pipe { x: 6, gap_y: 0 }];
    let action = game.advance(Input::Idle, None, &mut screen);
    assert_eq!(action, Action::HoldAndStop);
    assert_eq!(game.status, Status::Terminated(Cause::PipeCollision));
    assert!(!game.is_running());
    assert_eq!(game.bird, Bird { x: 6, y: 5, y_vel: 0 });
    assert_eq!(game.pipes, vec![Pipe { x: 6, gap_y: 0 }]);
    assert_eq!(shown(&screen), frame_of(&game.bird, &game.pipes, 80, 24));
    assert_eq!(screen.get(5, 6), Some(Cell::Bird));
    assert_eq!(screen.get(7, 6), Some(Cell::Pipe));
}

#[test]
fn bird_inside_the_gap_goes_on() {
    let mut game = Game::new(80, 24);
    let mut screen = Screen::new(80, 24);
    game.bird = Bird { x: 6, y: 5, y_vel: 0 };
    game.pipes = vec![Pipe { x: 6, gap_y: 4 }];
    let action = game.advance(Input::Idle, None, &mut screen);
    assert_eq!(action, Action::Continue);
    assert_eq!(game.status, Status::Running);
    assert_eq!(game.bird, Bird { x: 6, y: 6, y_vel: 0 });
    assert_eq!(game.pipes, vec![Pipe { x: 5, gap_y: 4 }]);
}

#[test]
fn a_pipe_is_tested_before_the_ground() {
    let mut game = Game::new(80, 24);
    let mut screen = Screen::new(80, 24);
    game.bird = Bird { x: 6, y: 22, y_vel: 0 };
    game.pipes = vec![Pipe { x: 8, gap_y: 3 }];
    let action = game.advance(Input::Idle, None, &mut screen);
    assert_eq!(action, Action::HoldAndStop);
    assert_eq!(game.status, Status::Terminated(Cause::PipeCollision));
}

#[test]
fn a_spawned_pipe_joins_the_stream_and_scrolls() {
    let mut game = Game::new(80, 24);
    let mut screen = Screen::new(80, 24);
    game.pipes = vec![Pipe { x: 40, gap_y: 8 }];
    let action = game.advance(Input::Idle, Some(Pipe { x: 80, gap_y: 5 }), &mut screen);
    assert_eq!(action, Action::Continue);
    assert_eq!(game.pipes, vec![Pipe { x: 39, gap_y: 8 }, Pipe { x: 79, gap_y: 5 }]);
    assert_eq!(
        shown(&screen),
        frame_of(
            &Bird { x: 6, y: 10, y_vel: 0 },
            &vec![Pipe { x: 40, gap_y: 8 }, Pipe { x: 80, gap_y: 5 }],
            80,
            24
        )
    );
}

#[test]
fn the_frame_shows_the_jump_but_not_the_move() {
    let mut game = Game::new(80, 24);
    let mut screen = Screen::new(80, 24);
    game.advance(Input::Jump, None, &mut screen);
    assert_eq!(game.bird, Bird { x: 6, y: 7, y_vel: 3 });
    assert_eq!(screen.get(10, 6), Some(Cell::Bird));
    assert_eq!(screen.get(11, 11), Some(Cell::Bird));
    assert_eq!(screen.get(7, 6), Some(Cell::Blank));
    game.advance(Input::Idle, None, &mut screen);
    assert_eq!(screen.get(10, 6), Some(Cell::Blank));
    assert_eq!(screen.get(7, 6), Some(Cell::Bird));
    assert_eq!(screen.get(8, 11), Some(Cell::Bird));
}

#[test]
fn a_jump_on_the_ground_does_not_save_the_bird() {
    let mut game = Game::new(80, 24);
    let mut screen = Screen::new(80, 24);
    game.bird = Bird { x: 6, y: 22, y_vel: 0 };
    let action = game.advance(Input::Jump, None, &mut screen);
    assert_eq!(action, Action::HoldAndStop);
    assert_eq!(game.status, Status::Terminated(Cause::GroundCollision));
    assert_eq!(game.bird, Bird { x: 6, y: 22, y_vel: 4 });
}

#[test]
fn a_pipe_scrolls_through_the_window_and_leaves() {
    let mut game = Game::new(20, 60);
    let mut screen = Screen::new(20, 60);
    game.bird = Bird { x: 6, y: 10, y_vel: 0 };
    game.pipes = vec![Pipe { x: 20, gap_y: 9 }];
    for tick in 1..20u16 {
        game.bird = Bird { x: 6, y: 10, y_vel: 0 };
        assert_eq!(game.advance(Input::Idle, None, &mut screen), Action::Continue);
        assert_eq!(game.pipes, vec![Pipe { x: 20 - tick, gap_y: 9 }]);
    }
    game.bird = Bird { x: 6, y: 10, y_vel: 0 };
    assert_eq!(game.advance(Input::Idle, None, &mut screen), Action::Continue);
    assert_eq!(game.pipes, Vec::new());
}

#[test]
fn a_game_in_a_window_lower_than_the_bird_ends_at_once() {
    let mut game = Game::new(80, 1);
    let mut screen = Screen::new(80, 1);
    assert_eq!(game.bird, Bird { x: 6, y: 0, y_vel: 0 });
    let action = game.advance(Input::Idle, None, &mut screen);
    assert_eq!(action, Action::HoldAndStop);
    assert_eq!(game.status, Status::Terminated(Cause::GroundCollision));
}

#[test]
fn tick_on_quit_draws_no_pipe() {
    let mut rng = rand::thread_rng();
    let mut screen = Screen::new(80, 24);
    for _ in 0..2000 {
        let mut game = Game::new(80, 24);
        let action = game.tick(Input::Quit, &mut rng, &mut screen);
        assert_eq!(action, Action::Stop);
        assert_eq!(game.status, Status::Terminated(Cause::Quit));
        assert_eq!(game.pipes, Vec::new());
    }
}

#[test]
fn tick_in_a_narrow_window_is_free_fall() {
    let mut rng = rand::thread_rng();
    let mut screen = Screen::new(10, 24);
    for _ in 0..500 {
        let mut game = Game::new(10, 24);
        let mut ticks = 0;
        while game.tick(Input::Idle, &mut rng, &mut screen) == Action::Continue {
            ticks += 1;
            assert_eq!(game.pipes, Vec::new());
            assert_eq!(game.bird.y, 10 + ticks);
        }
        assert_eq!(ticks, 12);
        assert_eq!(game.status, Status::Terminated(Cause::GroundCollision));
    }
}

#[test]
fn tick_spawns_pipes_at_the_right_edge_and_scrolls_them() {
    let mut rng = rand::thread_rng();
    let mut screen = Screen::new(80, 24);
    let mut game = Game::new(80, 24);
    let mut longest = 0;
    for _ in 0..100_000 {
        game.bird = Bird { x: 6, y: 10, y_vel: 0 };
        let before = game.pipes.clone();
        let action = game.tick(Input::Idle, &mut rng, &mut screen);
        if action != Action::Continue {
            assert_eq!(action, Action::HoldAndStop);
            assert_eq!(game.status, Status::Terminated(Cause::PipeCollision));
            assert!(game.pipes.len() == before.len() || game.pipes.len() == before.len() + 1);
            assert_eq!(shown(&screen), frame_of(&game.bird, &game.pipes, 80, 24));
            game.pipes.clear();
            game.status = Status::Running;
            continue;
        }
        let kept: Vec<Pipe> = before
            .iter()
            .filter(|pipe| pipe.x > 1)
            .map(|pipe| Pipe { x: pipe.x - 1, gap_y: pipe.gap_y })
            .collect();
        assert_eq!(&game.pipes[..kept.len()], &kept[..]);
        assert!(game.pipes.len() <= kept.len() + 1);
        if game.pipes.len() == kept.len() + 1 {
            let new = game.pipes[kept.len()];
            assert_eq!(new.x, 79);
            assert!(2 <= new.gap_y && new.gap_y < 72);
        }
        for pair in game.pipes.windows(2) {
            assert!(pair[0].x < pair[1].x);
        }
        longest = longest.max(game.pipes.len());
    }
    assert!(longest > 0);
}
