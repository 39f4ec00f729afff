//! The main menu: its items, moving the selection and acting on it.

use vstd::prelude::*;

use crate::root;

verus! {

/// An entry of the main menu.
#[derive(Debug, Clone, Copy, PartialEq, Eq, Structural)]
pub enum MenuID {
    MapHub,
    _Options,
    Manual,
    Quit,
}

/// The player chose a menu entry.
#[derive(Debug, Clone, Copy, PartialEq, Eq, Structural)]
pub struct MenuEvent(pub MenuID);

/// The main menu and its selected entry.
#[derive(Debug, Clone, Copy, PartialEq, Eq, Structural)]
pub struct Menu {
    pub selected: MenuID,
}

/// The entries offered, top to bottom.
pub open spec fn menu_items() -> Seq<MenuID> {
    seq![MenuID::MapHub, MenuID::Manual, MenuID::Quit]
}

/// The position of `m` among the entries offered; 0 for an entry that is
/// not offered.
pub open spec fn item_index(m: MenuID) -> int {
    match m {
        MenuID::MapHub => 0,
        MenuID::Manual => 1,
        MenuID::Quit => 2,
        MenuID::_Options => 0,
    }
}

/// The entry at position `idx`, counted modulo the number of entries.
pub open spec fn item_at(idx: int) -> MenuID {
    menu_items()[idx % 3]
}

/// The entry below `m`, wrapping to the top.
pub open spec fn item_after(m: MenuID) -> MenuID {
    item_at(item_index(m) + 1)
}

/// The entry above `m`, wrapping to the bottom.
pub open spec fn item_before(m: MenuID) -> MenuID {
    item_at(item_index(m) - 1)
}

impl Menu {
    /// Returns the entries offered, top to bottom.
    pub fn items() -> (r: Vec<MenuID>)
        ensures
            r@ == menu_items(),
    {
        let r = vec![MenuID::MapHub, MenuID::Manual, MenuID::Quit];
        assert(r@ =~= menu_items());
        r
    }

    /// Returns the position of the selected entry among those offered, or 0
    /// when it is not offered.
    pub fn item_idx(&self) -> (r: i64)
        ensures
            r == item_index(self.selected),
    {
        let items = Menu::items();
        let mut n: usize = 0;
        while n < items.len()
            invariant
                items@ == menu_items(),
                n <= 3,
                forall|j: int| 0 <= j < n ==> items@[j] != self.selected,
            decreases 3 - n,
        {
            if items[n] == self.selected {
                return n as i64;
            }
            n = n + 1;
        }
        0
    }

    /// Returns the entry at position `idx` counted modulo the number of
    /// entries, so that negative positions count from the bottom.
    pub fn idx_to_item(idx: i64) -> (r: MenuID)
        ensures
            r == item_at(idx as int),
    {
        let items = Menu::items();
        let len: i64 = 3;
        let i: i64 = match idx.checked_rem_euclid(len) {
            Some(i) => i,
            None => 0,
        };
        items[i as usize]
    }

    /// Moves the selection one entry down, wrapping to the top.
    pub fn next_item(&mut self)
        ensures
            final(self).selected == item_after(old(self).selected),
    {
        self.selected = Menu::idx_to_item(self.item_idx() + 1);
    }

    /// Moves the selection one entry up, wrapping to the bottom.
    pub fn previous_item(&mut self)
        ensures
            final(self).selected == item_before(old(self).selected),
    {
        self.selected = Menu::idx_to_item(self.item_idx() - 1);
    }
}

impl Default for Menu {
    fn default() -> (r: Self)
        ensures
            r.selected == MenuID::MapHub,
    {
        Menu { selected: MenuID::MapHub }
    }
}

/// Moving down then up, or up then down, comes back to an offered entry.
pub proof fn lemma_menu_moves_undo(m: MenuID)
    requires
        m != MenuID::_Options,
    ensures
        item_before(item_after(m)) == m,
        item_after(item_before(m)) == m,
{
}

/// Moving down as many times as there are entries comes back to the start.
pub proof fn lemma_menu_full_cycle(m: MenuID)
    requires
        m != MenuID::_Options,
    ensures
        item_after(item_after(item_after(m))) == m,
        item_before(item_before(item_before(m))) == m,
{
}

/// An entry of the menu as shown, and whether it is highlighted.
#[derive(Debug, Clone, Copy, PartialEq, Eq, Structural)]
pub struct MenuItem {
    pub identifier: MenuID,
    pub highlighted: bool,
}

impl MenuItem {
    /// An entry, not highlighted.
    pub fn new(identifier: MenuID) -> (r: MenuItem)
        ensures
            r.identifier == identifier,
            !r.highlighted,
    {
        MenuItem { identifier, highlighted: false }
    }
}

/// Highlights the shown entry exactly when it is the selected one.
pub fn item_logic(item: &mut MenuItem, menu: &Menu)
    ensures
        final(item).identifier == old(item).identifier,
        final(item).highlighted == (menu.selected == old(item).identifier),
{
    item.highlighted = menu.selected == item.identifier;
}

/// Applies the keys pressed on the main menu, checked in this order: up
/// moves the selection up, down moves it down, enter chooses the selected
/// entry.
pub fn keyboard(menu: &mut Menu, up: bool, down: bool, enter: bool) -> (r: Option<MenuEvent>)
    ensures
        up ==> final(menu).selected == item_before(old(menu).selected) && r is None,
        !up && down ==> final(menu).selected == item_after(old(menu).selected) && r is None,
        !up && !down && enter ==> *final(menu) == *old(menu) && r == Some(
            MenuEvent(old(menu).selected),
        ),
        !up && !down && !enter ==> *final(menu) == *old(menu) && r is None,
{
    if up {
        menu.previous_item();
        None
    } else if down {
        menu.next_item();
        None
    } else if enter {
        Some(MenuEvent(menu.selected))
    } else {
        None
    }
}

/// What choosing a menu entry leads to.
#[derive(Debug, Clone, Copy, PartialEq, Eq, Structural)]
pub enum MenuAction {
    /// Go to this screen.
    GoTo(root::State),
    /// Leave the game.
    Exit,
    /// Nothing happens.
    Stay,
}

/// Returns what choosing the entry of `event` leads to: the map hub, the
/// manual, leaving the game, or nothing for the options.
pub fn menu_event(event: MenuEvent) -> (r: MenuAction)
    ensures
        r == match event.0 {
            MenuID::MapHub => MenuAction::GoTo(root::State::MapHub),
            MenuID::Manual => MenuAction::GoTo(root::State::Manual),
            MenuID::_Options => MenuAction::Stay,
            MenuID::Quit => MenuAction::Exit,
        },
{
    match event.0 {
        MenuID::MapHub => MenuAction::GoTo(root::State::MapHub),
        MenuID::Manual => MenuAction::GoTo(root::State::Manual),
        MenuID::_Options => MenuAction::Stay,
        MenuID::Quit => MenuAction::Exit,
    }
}

} // verus!
