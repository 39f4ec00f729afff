//! The user manual: pages grouped in chapters, and moving between them.

use vstd::prelude::*;

use crate::root;

verus! {

/// The pages of the first version of the manual, in reading order.
#[derive(Debug, Clone, Copy, PartialEq, Eq, Structural)]
pub enum ManualPageObsolete {
    MissionBriefing,
    EssentialControls,
    EMFAndThermometer,
    TruckJournal,
    ExpellingGhost,
}

impl Default for ManualPageObsolete {
    fn default() -> (r: Self)
        ensures
            r == ManualPageObsolete::MissionBriefing,
    {
        ManualPageObsolete::MissionBriefing
    }
}

impl ManualPageObsolete {
    /// The position of the page in reading order.
    pub open spec fn position(self) -> int {
        match self {
            ManualPageObsolete::MissionBriefing => 0,
            ManualPageObsolete::EssentialControls => 1,
            ManualPageObsolete::EMFAndThermometer => 2,
            ManualPageObsolete::TruckJournal => 3,
            ManualPageObsolete::ExpellingGhost => 4,
        }
    }

    /// Returns the page after this one, if any.
    pub fn next(&self) -> (r: Option<ManualPageObsolete>)
        ensures
            match r {
                Some(p) => p.position() == self.position() + 1,
                None => self.position() == 4,
            },
    {
        match self {
            ManualPageObsolete::MissionBriefing => Some(ManualPageObsolete::EssentialControls),
            ManualPageObsolete::EssentialControls => Some(ManualPageObsolete::EMFAndThermometer),
            ManualPageObsolete::EMFAndThermometer => Some(ManualPageObsolete::TruckJournal),
            ManualPageObsolete::TruckJournal => Some(ManualPageObsolete::ExpellingGhost),
            ManualPageObsolete::ExpellingGhost => None,
        }
    }

    /// Returns the page before this one, if any.
    pub fn previous(&self) -> (r: Option<ManualPageObsolete>)
        ensures
            match r {
                Some(p) => p.position() == self.position() - 1,
                None => self.position() == 0,
            },
    {
        match self {
            ManualPageObsolete::MissionBriefing => None,
            ManualPageObsolete::EssentialControls => Some(ManualPageObsolete::MissionBriefing),
            ManualPageObsolete::EMFAndThermometer => Some(ManualPageObsolete::EssentialControls),
            ManualPageObsolete::TruckJournal => Some(ManualPageObsolete::EMFAndThermometer),
            ManualPageObsolete::ExpellingGhost => Some(ManualPageObsolete::TruckJournal),
        }
    }
}

/// Two pages at the same position are the same page.
pub proof fn lemma_page_position_injective(a: ManualPageObsolete, b: ManualPageObsolete)
    ensures
        a.position() == b.position() ==> a == b,
{
}

/// The page shown: a chapter and a page within it.
#[derive(Debug, Clone, Copy, PartialEq, Eq, Structural)]
pub struct CurrentManualPage(pub usize, pub usize);

impl Default for CurrentManualPage {
    fn default() -> (r: Self)
        ensures
            r.0 == 0,
            r.1 == 0,
    {
        CurrentManualPage(0, 0)
    }
}

/// What the keys and buttons of the manual lead to.
#[derive(Debug, Clone, Copy, PartialEq, Eq, Structural)]
pub enum ManualButton {
    Previous,
    Next,
    Close,
}

impl CurrentManualPage {
    /// Moves to the previous page of the chapter; stays on its first page.
    pub fn previous_page(&mut self)
        ensures
            final(self).0 == old(self).0,
            final(self).1 == if old(self).1 > 0 {
                old(self).1 - 1
            } else {
                0
            },
    {
        if self.1 > 0 {
            self.1 = self.1 - 1;
        }
    }

    /// Moves to the next page of a chapter of `chapter_size` pages; stays on
    /// its last page.
    pub fn next_page(&mut self, chapter_size: usize)
        ensures
            final(self).0 == old(self).0,
            final(self).1 == if old(self).1 + 1 < chapter_size {
                old(self).1 + 1
            } else {
                old(self).1 as int
            },
    {
        if self.1 < chapter_size && self.1 + 1 < chapter_size {
            self.1 = self.1 + 1;
        }
    }

    /// Whether the "Previous" button is hidden: on the first page.
    pub fn is_first(&self) -> (r: bool)
        ensures
            r == (self.1 == 0),
    {
        self.1 == 0
    }

    /// Whether the "Next" button is hidden: on the last page of a chapter of
    /// `chapter_size` pages.
    pub fn is_last(&self, chapter_size: usize) -> (r: bool)
        ensures
            r == (self.1 + 1 == chapter_size),
    {
        self.1 < chapter_size && self.1 + 1 == chapter_size
    }
}

/// Applies a button press or key of the manual on a chapter of
/// `chapter_size` pages: previous and next move within the chapter, close
/// goes back to the main menu.
pub fn user_manual_system(
    page: &mut CurrentManualPage,
    chapter_size: usize,
    pressed: Option<ManualButton>,
) -> (r: Option<root::State>)
    ensures
        pressed == Some(ManualButton::Previous) ==> final(page).0 == old(page).0 && final(page).1 == if old(
            page,
        ).1 > 0 {
            old(page).1 - 1
        } else {
            0
        },
        pressed == Some(ManualButton::Next) ==> final(page).0 == old(page).0 && final(page).1 == if old(
            page,
        ).1 + 1 < chapter_size {
            old(page).1 + 1
        } else {
            old(page).1 as int
        },
        pressed == Some(ManualButton::Close) || pressed is None ==> *final(page) == *old(page),
        r == if pressed == Some(ManualButton::Close) {
            Some(root::State::MainMenu)
        } else {
            None
        },
{
    match pressed {
        Some(ManualButton::Previous) => {
            page.previous_page();
            None
        },
        Some(ManualButton::Next) => {
            page.next_page(chapter_size);
            None
        },
        Some(ManualButton::Close) => Some(root::State::MainMenu),
        None => None,
    }
}

/// Within a chapter of `size` pages the page stays in the chapter, and
/// going forth then back (away from the last page) returns to the same page.
pub proof fn lemma_pages_stay_in_chapter(p: int, size: int)
    requires
        0 <= p < size,
    ensures
        0 <= (if p + 1 < size {
            p + 1
        } else {
            p
        }) < size,
        p + 1 < size ==> (if p + 1 > 0 {
            p + 1 - 1
        } else {
            0
        }) == p,
{
}

} // verus!
