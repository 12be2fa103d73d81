//! The difficulty ladder: how many cleared lines advance the level and how
//! fast gravity ticks at each level.

use vstd::prelude::*;

verus! {

/// One difficulty level: the cleared lines needed to advance past it, and
/// the gravity tick interval at it, in microseconds.
#[derive(Clone, Copy, Debug, PartialEq, Eq, Structural)]
pub struct Level {
    pub lines_to_next_level: u8,
    pub tick_interval: u128,
}

/// A level with the given line requirement whose tick interval lasts the
/// given number of frames at 60 frames per second.
pub open spec fn level_spec(lines_to_next_level: u8, frames_per_block_at_60: u16) -> Level {
    Level {
        lines_to_next_level,
        tick_interval: (16667 * frames_per_block_at_60) as u128,
    }
}

impl Level {
    /// A level whose tick interval lasts `frames_per_block_at_60` frames at
    /// 60 frames per second.
    pub fn new(lines_to_next_level: u8, frames_per_block_at_60: u16) -> (r: Level)
        ensures
            r == level_spec(lines_to_next_level, frames_per_block_at_60),
    {
        Level { lines_to_next_level, tick_interval: 16667 as u128 * frames_per_block_at_60 as u128 }
    }
}

/// Whether adding cleared lines advanced the ladder, and to which level.
#[derive(Clone, Copy, Debug, PartialEq, Eq, Structural)]
pub enum AddClearedLinesResult {
    LevelIncreased(Level),
    LevelStayedTheSame,
}

/// The mathematical model of the ladder's state.
pub struct LevelsView {
    pub current_level_index: int,
    pub accumulated_lines: int,
    pub levels: Seq<Level>,
}

/// The classic ladder's levels, in order.
pub open spec fn classic_levels() -> Seq<Level> {
    seq![
        level_spec(10, 48), level_spec(20, 43), level_spec(30, 38), level_spec(40, 33),
        level_spec(50, 28), level_spec(60, 23), level_spec(70, 18), level_spec(80, 13),
        level_spec(90, 8), level_spec(100, 6), level_spec(100, 5), level_spec(100, 5),
        level_spec(100, 5), level_spec(100, 4), level_spec(100, 4), level_spec(100, 4),
        level_spec(110, 3), level_spec(120, 3), level_spec(130, 3), level_spec(140, 2),
        level_spec(150, 2), level_spec(160, 2), level_spec(170, 2), level_spec(180, 2),
        level_spec(190, 2), level_spec(200, 2), level_spec(200, 2), level_spec(200, 2),
        level_spec(200, 2), level_spec(200, 1),
    ]
}

/// The difficulty ladder: the ordered levels, the current position, and the
/// cleared lines accumulated toward the next level.
pub struct Levels {
    current_level_index: usize,
    accumulated_lines: u8,
    levels: Vec<Level>,
}

impl View for Levels {
    type V = LevelsView;

    closed spec fn view(&self) -> LevelsView {
        LevelsView {
            current_level_index: self.current_level_index as int,
            accumulated_lines: self.accumulated_lines as int,
            levels: self.levels@,
        }
    }
}

impl Levels {
    /// The current position names a level of the ladder.
    pub open spec fn wf(&self) -> bool {
        0 <= self@.current_level_index < self@.levels.len()
    }

    /// The classic ladder, starting at its first level with no lines
    /// accumulated.
    pub fn classic() -> (r: Levels)
        ensures
            r.wf(),
            r@.current_level_index == 0,
            r@.accumulated_lines == 0,
            r@.levels == classic_levels(),
    {
        let mut levels: Vec<Level> = Vec::new();
        levels.push(Level::new(10, 48));
        levels.push(Level::new(20, 43));
        levels.push(Level::new(30, 38));
        levels.push(Level::new(40, 33));
        levels.push(Level::new(50, 28));
        levels.push(Level::new(60, 23));
        levels.push(Level::new(70, 18));
        levels.push(Level::new(80, 13));
        levels.push(Level::new(90, 8));
        levels.push(Level::new(100, 6));
        levels.push(Level::new(100, 5));
        levels.push(Level::new(100, 5));
        levels.push(Level::new(100, 5));
        levels.push(Level::new(100, 4));
        levels.push(Level::new(100, 4));
        levels.push(Level::new(100, 4));
        levels.push(Level::new(110, 3));
        levels.push(Level::new(120, 3));
        levels.push(Level::new(130, 3));
        levels.push(Level::new(140, 2));
        levels.push(Level::new(150, 2));
        levels.push(Level::new(160, 2));
        levels.push(Level::new(170, 2));
        levels.push(Level::new(180, 2));
        levels.push(Level::new(190, 2));
        levels.push(Level::new(200, 2));
        levels.push(Level::new(200, 2));
        levels.push(Level::new(200, 2));
        levels.push(Level::new(200, 2));
        levels.push(Level::new(200, 1));
        proof {
            assert(levels@ =~= classic_levels());
        }
        Levels { current_level_index: 0, accumulated_lines: 0, levels }
    }

    /// Credit cleared lines toward the next level. When the accumulated
    /// total reaches the current level's requirement, the surplus carries
    /// over, the ladder advances one level, and the new level is returned.
    pub fn add_cleared_lines(&mut self, cleared_lines: u8) -> (r: AddClearedLinesResult)
        requires
            old(self).wf(),
            old(self)@.accumulated_lines + cleared_lines <= u8::MAX,
            old(self)@.accumulated_lines + cleared_lines
                >= old(self)@.levels[old(self)@.current_level_index].lines_to_next_level
                ==> old(self)@.current_level_index + 1 < old(self)@.levels.len(),
        ensures
            final(self).wf(),
            final(self)@.levels == old(self)@.levels,
            ({
                let total = old(self)@.accumulated_lines + cleared_lines;
                let required = old(self)@.levels[old(self)@.current_level_index]
                    .lines_to_next_level as int;
                if total >= required {
                    &&& final(self)@.accumulated_lines == total - required
                    &&& final(self)@.current_level_index == old(self)@.current_level_index + 1
                    &&& r == AddClearedLinesResult::LevelIncreased(
                        old(self)@.levels[old(self)@.current_level_index + 1])
                } else {
                    &&& final(self)@.accumulated_lines == total
                    &&& final(self)@.current_level_index == old(self)@.current_level_index
                    &&& r == AddClearedLinesResult::LevelStayedTheSame
                }
            }),
    {
        self.accumulated_lines = self.accumulated_lines + cleared_lines;
        let required_lines_to_next_level = self.levels[self.current_level_index].lines_to_next_level;
        if self.accumulated_lines >= required_lines_to_next_level
            && self.current_level_index < self.levels.len() {
            self.accumulated_lines = self.accumulated_lines - required_lines_to_next_level;
            self.current_level_index = self.current_level_index + 1;
            return AddClearedLinesResult::LevelIncreased(self.levels[self.current_level_index]);
        }
        AddClearedLinesResult::LevelStayedTheSame
    }
}

} // verus!
