use tetris::levels::{AddClearedLinesResult, Level, Levels};
use tetris::shell::{Game, Key, PlayingState, RenderState, UpdateOutcome};
use tetris::ticker::Ticker;

fn fresh_shell() -> Game {
    Game::new(Ticker::new(1_000_000, 100_000, 100_000), 9)
}

#[test]
fn control_c_exits_from_any_screen() {
    let mut shell = fresh_shell();
    let keys = vec![Key::Control, Key::C];
    assert_eq!(shell.update(&keys, &0), UpdateOutcome::Exit);
}

#[test]
fn empty_input_on_menu_changes_nothing() {
    let mut shell = fresh_shell();
    let keys: Vec<Key> = Vec::new();
    assert_eq!(shell.update(&keys, &10_000), UpdateOutcome::NothingSpecial);
    assert_eq!(shell.playing_state, PlayingState::Stopped);
    assert_eq!(shell.main_menu.selected_item, 0);
}

#[test]
fn starting_a_game_runs_and_gravity_ticks() {
    let mut shell = fresh_shell();
    // Enter on "Start new Game" begins playing.
    assert_eq!(shell.update(&vec![Key::Enter], &0), UpdateOutcome::Render);
    assert_eq!(shell.playing_state, PlayingState::Running);
    let y0 = shell.tetris.active_piece().position.y;
    // Less than one tick interval: nothing happens.
    assert_eq!(shell.update(&Vec::new(), &500_000), UpdateOutcome::NothingSpecial);
    assert_eq!(shell.tetris.active_piece().position.y, y0);
    // Passing the interval applies one gravity step.
    assert_eq!(shell.update(&Vec::new(), &600_000), UpdateOutcome::Render);
    assert_eq!(shell.tetris.active_piece().position.y, y0 + 1);
}

#[test]
fn pausing_shows_the_pause_menu() {
    let mut shell = fresh_shell();
    shell.update(&vec![Key::Enter], &0);
    assert_eq!(shell.update(&vec![Key::P], &0), UpdateOutcome::Render);
    assert_eq!(shell.playing_state, PlayingState::Paused);
    match shell.state() {
        RenderState::InMenu(menu) => assert_eq!(menu.title, "Paused"),
        RenderState::Running(_) => panic!("expected the pause menu"),
    }
    // Escape resumes.
    shell.update(&vec![Key::Escape], &0);
    assert_eq!(shell.playing_state, PlayingState::Running);
}

#[test]
fn menu_navigation_wraps() {
    let mut shell = fresh_shell();
    assert_eq!(shell.main_menu.selected_item, 0);
    shell.update(&vec![Key::Down], &0);
    assert_eq!(shell.main_menu.selected_item, 1);
    shell.update(&vec![Key::Down], &0);
    assert_eq!(shell.main_menu.selected_item, 0);
    shell.update(&vec![Key::Up], &0);
    assert_eq!(shell.main_menu.selected_item, 1);
}

#[test]
fn quit_entry_exits() {
    let mut shell = fresh_shell();
    shell.update(&vec![Key::Down], &0);
    assert_eq!(shell.update(&vec![Key::Enter], &0), UpdateOutcome::Exit);
}

#[test]
fn moves_reach_the_engine_while_running() {
    let mut shell = fresh_shell();
    shell.update(&vec![Key::Enter], &0);
    let x0 = shell.tetris.active_piece().position.x;
    shell.update(&vec![Key::Left], &0);
    assert_eq!(shell.tetris.active_piece().position.x, x0 - 1);
    shell.update(&vec![Key::Right], &0);
    assert_eq!(shell.tetris.active_piece().position.x, x0);
}

#[test]
fn classic_ladder_advances_on_enough_lines() {
    let mut levels = Levels::classic();
    assert_eq!(levels.add_cleared_lines(4), AddClearedLinesResult::LevelStayedTheSame);
    assert_eq!(levels.add_cleared_lines(4), AddClearedLinesResult::LevelStayedTheSame);
    // 8 + 4 = 12 >= 10: the ladder advances and 2 lines carry over.
    assert_eq!(levels.add_cleared_lines(4),
        AddClearedLinesResult::LevelIncreased(Level::new(20, 43)));
    // 2 + 17 = 19 < 20: still the same level.
    assert_eq!(levels.add_cleared_lines(17), AddClearedLinesResult::LevelStayedTheSame);
    assert_eq!(levels.add_cleared_lines(1),
        AddClearedLinesResult::LevelIncreased(Level::new(30, 38)));
}

#[test]
fn level_interval_is_frames_times_frame_length() {
    let level = Level::new(10, 48);
    assert_eq!(level.tick_interval, 16667 * 48);
    assert_eq!(level.lines_to_next_level, 10);
}

#[test]
fn ticker_accumulates_and_consumes_one_interval() {
    let mut ticker = Ticker::new(1000, 100, 200);
    assert!(!ticker.update(&600));
    assert!(!ticker.update(&400));
    // 600 + 400 = 1000 is not past the interval; 1 more microsecond is.
    assert!(ticker.update(&1));
    // The surplus (1) is kept.
    assert!(ticker.update(&1000));
    assert!(!ticker.update(&0));
}

#[test]
fn ticker_speed_up_stops_at_the_floor() {
    let mut ticker = Ticker::new(1000, 700, 200);
    ticker.increase_tick_speed();
    assert_eq!(ticker.tick_interval_time, 800);
    ticker.increase_tick_speed();
    assert_eq!(ticker.tick_interval_time, 700);
    ticker.increase_tick_speed();
    assert_eq!(ticker.tick_interval_time, 700);
}

#[test]
fn ticker_reset_forgets_collected_time() {
    let mut ticker = Ticker::new(1000, 100, 200);
    assert!(!ticker.update(&900));
    ticker.reset_tick_timer();
    assert!(!ticker.update(&900));
    assert!(ticker.update(&200));
}
