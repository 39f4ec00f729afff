//! The summary screen after a game: its lines, the score multipliers of
//! its difficulty levels and the score counter that runs up to the score.

use vstd::prelude::*;

use crate::root;

verus! {

/// A line of the summary screen.
#[derive(Debug, Clone, Copy, PartialEq, Eq, Structural)]
pub enum SummaryUIType {
    GhostList,
    TimeTaken,
    GhostUnhaunted,
    RepellentUsed,
    AvgSanity,
    PlayersAlive,
    FinalScore,
}

/// The difficulty levels the score is computed for.
#[derive(Debug, Clone, Copy, PartialEq, Eq, Structural)]
pub enum Difficulty {
    Training,
    Beginner,
    Easy,
    Normal,
    Medium,
    Hard,
    Expert,
    Master,
    Insane,
}

impl Default for Difficulty {
    fn default() -> (r: Self)
        ensures
            r == Difficulty::Normal,
    {
        Difficulty::Normal
    }
}

impl Difficulty {
    /// The score multiplier of the level, in tenths.
    pub open spec fn multiplier_of(self) -> u32 {
        match self {
            Difficulty::Training => 10,
            Difficulty::Beginner => 15,
            Difficulty::Easy => 28,
            Difficulty::Normal => 40,
            Difficulty::Medium => 55,
            Difficulty::Hard => 78,
            Difficulty::Expert => 110,
            Difficulty::Master => 155,
            Difficulty::Insane => 220,
        }
    }

    /// Returns the score multiplier of the level, in tenths.
    pub fn get_multiplier(&self) -> (r: u32)
        ensures
            r == self.multiplier_of(),
    {
        match self {
            Difficulty::Training => 10,
            Difficulty::Beginner => 15,
            Difficulty::Easy => 28,
            Difficulty::Normal => 40,
            Difficulty::Medium => 55,
            Difficulty::Hard => 78,
            Difficulty::Expert => 110,
            Difficulty::Master => 155,
            Difficulty::Insane => 220,
        }
    }

    /// The position of the level, from the easiest.
    pub open spec fn rank(self) -> int {
        match self {
            Difficulty::Training => 0,
            Difficulty::Beginner => 1,
            Difficulty::Easy => 2,
            Difficulty::Normal => 3,
            Difficulty::Medium => 4,
            Difficulty::Hard => 5,
            Difficulty::Expert => 6,
            Difficulty::Master => 7,
            Difficulty::Insane => 8,
        }
    }
}

/// A harder level multiplies the score by more.
pub proof fn lemma_multiplier_grows(a: Difficulty, b: Difficulty)
    requires
        a.rank() < b.rank(),
    ensures
        a.multiplier_of() < b.multiplier_of(),
{
}

/// The shown score after one step towards `desired`: a two-hundredth of the
/// distance, at least 10, but never past the target.
pub open spec fn score_step(shown: int, desired: int) -> int {
    let gap = desired - shown;
    let step = if gap / 200 > 10 {
        gap / 200
    } else {
        10
    };
    shown + if step < gap {
        step
    } else {
        gap
    }
}

/// Moves the shown score one step towards the desired one; see
/// `score_step`.
pub fn update_score(final_score: i64, desired_score: i64) -> (r: i64)
    requires
        i64::MIN <= desired_score - final_score <= i64::MAX,
    ensures
        r == score_step(final_score as int, desired_score as int),
{
    let max_delta = desired_score - final_score;
    let step: i64 = if max_delta / 200 > 10 {
        max_delta / 200
    } else {
        10
    };
    let delta = if step < max_delta {
        step
    } else {
        max_delta
    };
    final_score + delta
}

/// The score counter never runs past the desired score, gets there at once
/// when it is above or within 10 of it, and otherwise moves up by at least
/// 10.
pub proof fn lemma_score_approaches(shown: int, desired: int)
    ensures
        shown >= desired || desired - shown <= 10 ==> score_step(shown, desired) == desired,
        shown < desired ==> shown < score_step(shown, desired) <= desired,
        desired - shown > 10 ==> score_step(shown, desired) >= shown + 10,
{
    let gap = desired - shown;
    if gap > 0 {
        assert(gap / 200 <= gap) by (nonlinear_arith)
            requires
                gap > 0,
        ;
    } else {
        assert(gap / 200 <= 10) by (nonlinear_arith)
            requires
                gap <= 0,
        ;
    }
}

/// The screen after a key press on the summary: escape or either enter key
/// goes back to the main menu; nothing happens off the summary screen.
pub fn keyboard(app_state: root::State, escape: bool, numpad_enter: bool, enter: bool) -> (r: Option<
    root::State,
>)
    ensures
        r == if app_state == root::State::Summary && (escape || numpad_enter || enter) {
            Some(root::State::MainMenu)
        } else {
            None
        },
{
    if app_state != root::State::Summary {
        return None;
    }
    if escape || numpad_enter || enter {
        Some(root::State::MainMenu)
    } else {
        None
    }
}

} // verus!
