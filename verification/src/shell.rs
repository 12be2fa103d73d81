//! The game shell around the engine: the playing/paused/stopped state
//! machine, the pause and main menus, and the update step that feeds decoded
//! keys and elapsed time into the engine.

use vstd::prelude::*;
use crate::game::Game as Tetris;
use crate::game::{MoveOutcome, held_board_spec, next_board_spec, snapshot_board_spec, tick_spec};
use crate::ticker::Ticker;

verus! {

/// Which screen the shell is on.
#[derive(Clone, Copy, Debug, PartialEq, Eq, Structural)]
pub enum PlayingState {
    Running,
    Stopped,
    Paused,
}

/// A decoded input key, as the input component hands it to the shell.
#[derive(Clone, Copy, Debug, PartialEq, Eq, Structural)]
pub enum Key {
    Left,
    Right,
    Up,
    Down,
    Shift,
    Space,
    P,
    Z,
    X,
    Escape,
    Control,
    C,
    Enter,
}

/// What one update step asks the driving loop to do.
#[derive(Clone, Copy, Debug, PartialEq, Eq, Structural)]
pub enum UpdateOutcome {
    Exit,
    Render,
    NothingSpecial,
}

/// What choosing a menu item does.
#[derive(Clone, Copy, Debug, PartialEq, Eq, Structural)]
enum Command {
    Pause,
    Resume,
    Stop,
    Start,
    Quit,
}

/// One selectable menu entry.
pub struct MenuItem {
    pub label: &'static str,
    command: Command,
}

/// A titled menu with one selected entry.
pub struct Menu {
    pub title: &'static str,
    pub items: Vec<MenuItem>,
    pub selected_item: usize,
}

impl Menu {
    /// The selection names an entry.
    pub open spec fn wf(&self) -> bool {
        self.selected_item < self.items@.len()
    }

    /// A menu over the given entries with the first one selected.
    pub fn new(title: &'static str, items: Vec<MenuItem>) -> (r: Menu)
        requires
            items@.len() > 0,
        ensures
            r.wf(),
            r.title == title,
            r.items == items,
            r.selected_item == 0,
    {
        Menu { title, items, selected_item: 0 }
    }

    /// Move the selection down one entry, wrapping to the top.
    pub fn move_down(&mut self)
        requires
            old(self).wf(),
        ensures
            final(self).wf(),
            final(self).title == old(self).title,
            final(self).items == old(self).items,
            final(self).selected_item == if old(self).selected_item == old(self).items@.len() - 1 {
                0int
            } else {
                old(self).selected_item + 1
            },
    {
        let len = self.items.len();
        if self.selected_item == len - 1 {
            self.selected_item = 0;
        } else {
            self.selected_item = self.selected_item + 1;
        }
    }

    /// Move the selection up one entry, wrapping to the bottom.
    pub fn move_up(&mut self)
        requires
            old(self).wf(),
        ensures
            final(self).wf(),
            final(self).title == old(self).title,
            final(self).items == old(self).items,
            final(self).selected_item == if old(self).selected_item == 0 {
                old(self).items@.len() - 1
            } else {
                old(self).selected_item - 1
            },
    {
        let len = self.items.len();
        if self.selected_item == 0 {
            self.selected_item = len - 1;
        } else {
            self.selected_item = self.selected_item - 1;
        }
    }
}

/// What a renderer is shown: the engine snapshot while running, a menu
/// otherwise.
pub enum RenderState<'a> {
    Running(crate::game::RenderState),
    InMenu(&'a Menu),
}

/// A sink for render states; the driving loop's renderer implements it.
pub trait Renderer {
    fn render(&mut self, state: &RenderState);
}

/// The shell: the screen state machine, the engine, the tick accumulator
/// and the two menus.
pub struct Game {
    pub playing_state: PlayingState,
    pub tetris: Tetris,
    pub ticker: Ticker,
    pub pause_menu: Menu,
    pub main_menu: Menu,
    pub seed: u64,
}

/// What one decoded key does to the engine while the shell is running:
/// the exact engine transition it triggers, or a pause for the pause keys.
/// The hard-drop key is not listed: its resting row is specified by
/// `rests_at` on the hard drop itself.
pub open spec fn running_key_applied(g0: crate::game::GameView, g1: crate::game::GameView,
    k: Key) -> bool {
    &&& (k == Key::Left ==> g1 == crate::game::try_shift_spec(g0, -1, 0))
    &&& (k == Key::Right ==> g1 == crate::game::try_shift_spec(g0, 1, 0))
    &&& (k == Key::Down ==> g1 == crate::game::try_shift_spec(g0, 0, 1))
    &&& (k == Key::Up || k == Key::Z ==> g1 == crate::game::rotate_spec(g0, true))
    &&& (k == Key::X ==> g1 == crate::game::rotate_spec(g0, false))
    &&& (k == Key::Shift ==> g1 == crate::game::hold_spec(g0))
    &&& (k == Key::P || k == Key::Escape || k == Key::Enter || k == Key::Control || k == Key::C
        ==> g1 == g0)
}

/// True iff some element of `keys` equals `k`.
fn keys_contain(keys: &Vec<Key>, k: Key) -> (r: bool)
    ensures
        r == keys@.contains(k),
{
    let mut i: usize = 0;
    while i < keys.len()
        invariant
            i <= keys@.len(),
            forall|j: int| 0 <= j < i ==> keys@[j] != k,
        decreases keys@.len() - i,
    {
        if keys[i] == k {
            return true;
        }
        i = i + 1;
    }
    false
}

impl Game {
    /// The engine and both menus are well formed.
    pub open spec fn wf(&self) -> bool {
        &&& self.tetris.wf()
        &&& self.pause_menu.wf()
        &&& self.main_menu.wf()
    }

    /// A fresh shell on the main menu, with a fresh engine drawn from the
    /// seed; new games started from the menu reuse the same seed.
    pub fn new(ticker: Ticker, seed: u64) -> (r: Game)
        ensures
            r.wf(),
            r.playing_state == PlayingState::Stopped,
            r.ticker == ticker,
            r.seed == seed,
            r.tetris@.held is None,
    {
        let mut pause_items: Vec<MenuItem> = Vec::new();
        pause_items.push(MenuItem { label: "Resume", command: Command::Resume });
        pause_items.push(MenuItem { label: "Exit to Main Menu", command: Command::Stop });
        pause_items.push(MenuItem { label: "Quit", command: Command::Quit });
        let mut main_items: Vec<MenuItem> = Vec::new();
        main_items.push(MenuItem { label: "Start new Game", command: Command::Start });
        main_items.push(MenuItem { label: "Quit", command: Command::Quit });
        Game {
            playing_state: PlayingState::Stopped,
            tetris: Tetris::new(seed),
            ticker,
            pause_menu: Menu::new("Paused", pause_items),
            main_menu: Menu::new("Welcome to Terminal Tetris!", main_items),
            seed,
        }
    }

    /// One step of the driving loop: feed the decoded keys in, then, while
    /// running, collect the elapsed time and apply a gravity step when one
    /// is due. `Exit` is returned on quit or when the game ends.
    pub fn update(&mut self, keys: &Vec<Key>, delta_time: &u128) -> (r: UpdateOutcome)
        requires
            old(self).wf(),
            old(self).ticker@.time_since_last_tick + *delta_time <= u128::MAX,
        ensures
            final(self).wf(),
            keys@.contains(Key::Control) && keys@.contains(Key::C) ==> r == UpdateOutcome::Exit,
            keys@.len() == 0 && old(self).playing_state != PlayingState::Running
                ==> *final(self) == *old(self) && r == UpdateOutcome::NothingSpecial,
            keys@.len() == 0 && old(self).playing_state == PlayingState::Running ==> ({
                let due = old(self).ticker@.time_since_last_tick + *delta_time
                    > old(self).ticker@.tick_interval_time;
                &&& final(self).tetris@ == (if due { tick_spec(old(self).tetris@).0 }
                    else { old(self).tetris@ })
                &&& r == (if !due { UpdateOutcome::NothingSpecial }
                    else if tick_spec(old(self).tetris@).1 == MoveOutcome::GameOver {
                        UpdateOutcome::Exit
                    } else { UpdateOutcome::Render })
            }),
            keys@.len() == 1 && keys@[0] != Key::Space
                && old(self).playing_state == PlayingState::Running
                && old(self).ticker@.time_since_last_tick + *delta_time
                    <= old(self).ticker@.tick_interval_time
                ==> running_key_applied(old(self).tetris@, final(self).tetris@, keys@[0]),
    {
        let input_outcome = self.process_input(keys);

        if input_outcome == UpdateOutcome::Exit {
            return input_outcome;
        }

        if self.playing_state == PlayingState::Running {
            let should_tick = self.ticker.update(delta_time);

            if should_tick {
                let move_outcome = self.tetris.move_down_and_stick();
                if move_outcome == MoveOutcome::GameOver {
                    return UpdateOutcome::Exit;
                }

                return UpdateOutcome::Render;
            }
        }

        input_outcome
    }

    /// The state a renderer should draw right now.
    pub fn state(&self) -> (r: RenderState)
        requires
            self.wf(),
            self.playing_state == PlayingState::Running ==> !self.tetris@.over,
        ensures
            self.playing_state == PlayingState::Running ==> (r matches RenderState::Running(ts)
                && ts.board@ == snapshot_board_spec(self.tetris@)
                && ts.next_pieces_board@ == next_board_spec(self.tetris@.sequence,
                    self.tetris@.index)
                && ts.held_piece_board@ == held_board_spec(self.tetris@.held)),
            self.playing_state == PlayingState::Paused
                ==> (r matches RenderState::InMenu(m) && *m == self.pause_menu),
            self.playing_state == PlayingState::Stopped
                ==> (r matches RenderState::InMenu(m) && *m == self.main_menu),
    {
        match self.playing_state {
            PlayingState::Running => RenderState::Running(self.tetris.render_state()),
            PlayingState::Paused => RenderState::InMenu(&self.pause_menu),
            PlayingState::Stopped => RenderState::InMenu(&self.main_menu),
        }
    }

    /// Apply each decoded key in order to whichever screen is active:
    /// engine commands while running, menu navigation otherwise. `Exit` on
    /// quit, on the quit menu entries, and when a hard drop ends the game.
    fn process_input(&mut self, keys: &Vec<Key>) -> (r: UpdateOutcome)
        requires
            old(self).wf(),
        ensures
            final(self).wf(),
            final(self).ticker@.tick_interval_time == old(self).ticker@.tick_interval_time,
            final(self).ticker@.time_since_last_tick <= old(self).ticker@.time_since_last_tick
                || final(self).ticker@.time_since_last_tick == 0,
            final(self).seed == old(self).seed,
            keys@.contains(Key::Control) && keys@.contains(Key::C) ==> r == UpdateOutcome::Exit,
            keys@.len() == 0 ==> *final(self) == *old(self) && r == UpdateOutcome::NothingSpecial,
            keys@.len() == 1 && keys@[0] != Key::Space
                && old(self).playing_state == PlayingState::Running
                && !(keys@.contains(Key::Control) && keys@.contains(Key::C)) ==> ({
                &&& running_key_applied(old(self).tetris@, final(self).tetris@, keys@[0])
                &&& final(self).playing_state == (if keys@[0] == Key::P
                    || keys@[0] == Key::Escape { PlayingState::Paused }
                    else { PlayingState::Running })
                &&& final(self).ticker@ == old(self).ticker@
            }),
    {
        if keys_contain(keys, Key::Control) && keys_contain(keys, Key::C) {
            return UpdateOutcome::Exit;
        }

        let mut update_outcome: UpdateOutcome = UpdateOutcome::NothingSpecial;
        let mut i: usize = 0;
        while i < keys.len()
            invariant
                self.wf(),
                i <= keys@.len(),
                self.ticker@.tick_interval_time == old(self).ticker@.tick_interval_time,
                self.ticker@.time_since_last_tick <= old(self).ticker@.time_since_last_tick
                    || self.ticker@.time_since_last_tick == 0,
                self.seed == old(self).seed,
                i == 0 ==> *self == *old(self) && update_outcome == UpdateOutcome::NothingSpecial,
                keys@.len() == 1 && keys@[0] != Key::Space
                    && old(self).playing_state == PlayingState::Running && i == 1 ==> ({
                    &&& running_key_applied(old(self).tetris@, self.tetris@, keys@[0])
                    &&& self.playing_state == (if keys@[0] == Key::P
                        || keys@[0] == Key::Escape { PlayingState::Paused }
                        else { PlayingState::Running })
                    &&& self.ticker@ == old(self).ticker@
                }),
            decreases keys@.len() - i,
        {
            let key = keys[i];
            match self.playing_state {
                PlayingState::Running => {
                    let move_outcome = match key {
                        Key::Left => {
                            self.tetris.try_and_move_left();
                            MoveOutcome::NothingSpecial
                        },
                        Key::Right => {
                            self.tetris.try_and_move_right();
                            MoveOutcome::NothingSpecial
                        },
                        Key::Down => {
                            self.tetris.try_and_move_down();
                            MoveOutcome::NothingSpecial
                        },
                        Key::Up => {
                            self.tetris.rotate_clockwise();
                            MoveOutcome::NothingSpecial
                        },
                        Key::Z => {
                            self.tetris.rotate_clockwise();
                            MoveOutcome::NothingSpecial
                        },
                        Key::X => {
                            self.tetris.rotate_counterclockwise();
                            MoveOutcome::NothingSpecial
                        },
                        Key::Shift => {
                            self.tetris.hold_piece();
                            MoveOutcome::NothingSpecial
                        },
                        Key::Space => self.tetris.slam(),
                        Key::P => {
                            self.playing_state = PlayingState::Paused;
                            MoveOutcome::NothingSpecial
                        },
                        Key::Escape => {
                            self.playing_state = PlayingState::Paused;
                            MoveOutcome::NothingSpecial
                        },
                        _ => MoveOutcome::NothingSpecial,
                    };

                    match move_outcome {
                        MoveOutcome::SpawnedNewPiece => self.ticker.reset_tick_timer(),
                        MoveOutcome::GameOver => {
                            return UpdateOutcome::Exit;
                        },
                        _ => (),
                    }
                },
                PlayingState::Paused => {
                    match key {
                        Key::Up => self.pause_menu.move_up(),
                        Key::Down => self.pause_menu.move_down(),
                        Key::P => self.playing_state = PlayingState::Running,
                        Key::Escape => self.playing_state = PlayingState::Running,
                        Key::Enter => {
                            match self.pause_menu.items[self.pause_menu.selected_item].command {
                                Command::Resume => {
                                    self.playing_state = PlayingState::Running;
                                },
                                Command::Quit => {
                                    return UpdateOutcome::Exit;
                                },
                                Command::Stop => {
                                    self.playing_state = PlayingState::Stopped;
                                },
                                _ => {},
                            }
                        },
                        _ => (),
                    }
                },
                PlayingState::Stopped => {
                    match key {
                        Key::Up => self.main_menu.move_up(),
                        Key::Down => self.main_menu.move_down(),
                        Key::Enter => {
                            match self.main_menu.items[self.main_menu.selected_item].command {
                                Command::Start => {
                                    self.playing_state = PlayingState::Running;
                                    self.tetris = Tetris::new(self.seed);
                                },
                                Command::Quit => {
                                    return UpdateOutcome::Exit;
                                },
                                _ => {},
                            }
                        },
                        _ => (),
                    }
                },
            }

            update_outcome = UpdateOutcome::Render;
            i = i + 1;
        }

        update_outcome
    }
}

} // verus!
