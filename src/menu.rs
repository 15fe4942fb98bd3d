//! Items of a vertical menu.
use vstd::prelude::*;
use crate::pager::Pager;

verus! {

/// What choosing a menu item reports: its position.
#[derive(Debug, Clone, Copy, PartialEq, Eq, Structural)]
pub enum VerticalMenuChoiceMsg {
    Selected(usize),
}

/// Icons of menu buttons.
#[derive(Debug, Clone, Copy, PartialEq, Eq, Structural)]
pub enum MenuIcon {
    ChevronRight,
    Cancel,
}

/// Looks of menu buttons.
#[derive(Debug, Clone, Copy, PartialEq, Eq, Structural)]
pub enum MenuStyle {
    Default,
    WarningHigh,
}

/// A menu button: a text with an icon, in a style.
#[derive(Debug, Clone, Copy)]
pub struct MenuButton {
    pub text: &'static str,
    pub icon: MenuIcon,
    pub style: MenuStyle,
}

/// An entry of a vertical menu.
#[derive(Debug, Clone, Copy)]
pub enum VerticalMenuItem {
    /// An ordinary entry.
    Item(&'static str),
    /// An entry that cancels, drawn as a warning.
    Cancel(&'static str),
}

/// The button of `item`.
pub open spec fn item_button(item: VerticalMenuItem) -> MenuButton {
    match item {
        VerticalMenuItem::Item(text) => MenuButton {
            text,
            icon: MenuIcon::ChevronRight,
            style: MenuStyle::Default,
        },
        VerticalMenuItem::Cancel(text) => MenuButton {
            text,
            icon: MenuIcon::Cancel,
            style: MenuStyle::WarningHigh,
        },
    }
}

impl VerticalMenuItem {
    /// The button of the entry: a right chevron in the default style for an
    /// ordinary entry, a cancel icon in the warning style for a cancelling
    /// one.
    pub fn button(&self) -> (r: MenuButton)
        ensures
            r == item_button(*self),
    {
        match *self {
            VerticalMenuItem::Item(text) => MenuButton {
                text,
                icon: MenuIcon::ChevronRight,
                style: MenuStyle::Default,
            },
            VerticalMenuItem::Cancel(text) => MenuButton {
                text,
                icon: MenuIcon::Cancel,
                style: MenuStyle::WarningHigh,
            },
        }
    }
}

/// Most buttons a menu shows at once.
pub const MENU_MAX_ITEMS: usize = 3;

/// Most entries a scrolled menu holds.
pub const MENU_ITEMS_CAPACITY: usize = 6;

/// The entries a menu's item vector holds, in order.
pub uninterp spec fn menu_items_of(v: heapless::Vec<VerticalMenuItem, MENU_ITEMS_CAPACITY>) -> Seq<VerticalMenuItem>;

/// Relies on heapless's `Vec::as_slice`: the items held, in order; never
/// more than the capacity.
#[verifier::external_body]
fn menu_items_slice(v: &heapless::Vec<VerticalMenuItem, MENU_ITEMS_CAPACITY>) -> (r: &[VerticalMenuItem])
    ensures
        r@ == menu_items_of(*v),
        r@.len() <= MENU_ITEMS_CAPACITY,
{
    v.as_slice()
}

/// What happens to a scrolled menu.
#[derive(Debug, Clone, Copy, PartialEq, Eq, Structural)]
pub enum MenuEvent {
    UpClicked,
    DownClicked,
    /// The button at this position (from the top) was clicked.
    ItemClicked(usize),
}

/// Buttons a page of `len` entries shows: all three when they fit,
/// otherwise two, to leave room for the arrows.
pub open spec fn menu_capacity_spec(len: int) -> int {
    if len <= MENU_MAX_ITEMS {
        MENU_MAX_ITEMS as int
    } else {
        MENU_MAX_ITEMS - 1
    }
}

/// A menu of up to six entries, shown a page of buttons at a time with
/// arrows to scroll between pages.
pub struct ScrolledVerticalMenu {
    pub items: heapless::Vec<VerticalMenuItem, MENU_ITEMS_CAPACITY>,
    pub pager: Pager,
    pub menu_capacity: usize,
    /// Whether the up arrow shows.
    pub up: bool,
    /// Whether the down arrow shows.
    pub down: bool,
    /// The buttons of the current page.
    pub active: Vec<MenuButton>,
}

impl ScrolledVerticalMenu {
    pub open spec fn items_view(&self) -> Seq<VerticalMenuItem> {
        menu_items_of(self.items)
    }

    /// Pages and capacity agree with the entries.
    pub open spec fn wf(&self) -> bool {
        let len = self.items_view().len() as int;
        &&& len <= MENU_ITEMS_CAPACITY
        &&& self.menu_capacity == menu_capacity_spec(len)
        &&& self.pager.total == (len + self.menu_capacity - 1) / (self.menu_capacity as int)
        &&& (self.pager.total == 0 ==> self.pager.current == 0)
        &&& (self.pager.total > 0 ==> self.pager.current < self.pager.total)
        &&& self.pager.total <= MENU_ITEMS_CAPACITY
        &&& self.active@.len() <= MENU_MAX_ITEMS
    }

    /// The buttons of page `page`: its entries' buttons.
    pub open spec fn page_buttons(&self, page: int) -> Seq<MenuButton> {
        let start = page * self.menu_capacity;
        let len = self.items_view().len() as int;
        let n = if len - start < self.menu_capacity { len - start } else { self.menu_capacity as int };
        Seq::new(n as nat, |i: int| item_button(self.items_view()[start + i]))
    }

    /// A menu of `items` opened on the page holding entry `item_index` (the
    /// last page when it is past the end).
    pub fn new(items: heapless::Vec<VerticalMenuItem, MENU_ITEMS_CAPACITY>, item_index: usize) -> (r: ScrolledVerticalMenu)
        ensures
            r.wf(),
            r.items_view() == menu_items_of(items),
            r.pager.total > 0 ==> r.pager.current == (if item_index / r.menu_capacity < r.pager.total {
                (item_index / r.menu_capacity) as int
            } else {
                r.pager.total - 1
            }),
            !r.up,
            !r.down,
            r.active@.len() == 0,
    {
        let len = menu_items_slice(&items).len();
        let menu_capacity: usize = if len <= MENU_MAX_ITEMS {
            MENU_MAX_ITEMS
        } else {
            MENU_MAX_ITEMS - 1
        };
        assert((len + menu_capacity - 1) / (menu_capacity as int) <= MENU_ITEMS_CAPACITY) by (nonlinear_arith)
            requires
                len <= MENU_ITEMS_CAPACITY,
                menu_capacity >= 2,
        ;
        let pages_count = ((len + menu_capacity - 1) / menu_capacity) as u16;
        let page = item_index / menu_capacity;
        let current: u16 = if pages_count == 0 {
            0
        } else if page < pages_count as usize {
            page as u16
        } else {
            pages_count - 1
        };
        ScrolledVerticalMenu {
            items,
            pager: Pager { current, total: pages_count },
            menu_capacity,
            up: false,
            down: false,
            active: Vec::new(),
        }
    }

    /// Shows the buttons of the current page.
    pub fn update_active_buttons(&mut self)
        requires
            old(self).wf(),
            old(self).pager.total > 0,
        ensures
            final(self).wf(),
            final(self).active@ == old(self).page_buttons(old(self).pager.current as int),
            final(self).pager == old(self).pager,
            final(self).items_view() == old(self).items_view(),
            final(self).up == old(self).up,
            final(self).down == old(self).down,
            final(self).menu_capacity == old(self).menu_capacity,
    {
        let items = menu_items_slice(&self.items);
        assert(self.pager.current * self.menu_capacity <= 18) by (nonlinear_arith)
            requires
                self.pager.current < MENU_ITEMS_CAPACITY,
                self.menu_capacity <= 3,
        ;
        let start = self.pager.current as usize * self.menu_capacity;
        let ghost page = self.page_buttons(self.pager.current as int);
        assert(start < items@.len()) by (nonlinear_arith)
            requires
                start == self.pager.current * self.menu_capacity,
                self.pager.current < self.pager.total,
                self.pager.total == (items@.len() + self.menu_capacity - 1) / (self.menu_capacity as int),
                self.menu_capacity >= 2,
        ;
        let end = if items.len() - start < self.menu_capacity {
            items.len()
        } else {
            start + self.menu_capacity
        };
        let mut active: Vec<MenuButton> = Vec::new();
        let mut i = start;
        while i < end
            invariant
                start <= i <= end <= items@.len(),
                end - start <= self.menu_capacity <= MENU_MAX_ITEMS,
                items@ == self.items_view(),
                page.len() == end - start,
                page == self.page_buttons(self.pager.current as int),
                start == self.pager.current * self.menu_capacity,
                active@ == page.take(i - start),
            decreases end - i,
        {
            active.push(items[i].button());
            assert(active@ =~= page.take(i + 1 - start));
            i += 1;
        }
        assert(active@ =~= page);
        self.active = active;
    }

    /// Sets up the arrows and the buttons of the current page.
    pub fn place(&mut self)
        requires
            old(self).wf(),
            old(self).pager.total > 0,
        ensures
            final(self).wf(),
            final(self).up == (old(self).pager.current > 0),
            final(self).down == (old(self).pager.current + 1 < old(self).pager.total),
            final(self).active@ == old(self).page_buttons(old(self).pager.current as int),
            final(self).pager == old(self).pager,
            final(self).items_view() == old(self).items_view(),
    {
        self.up = self.pager.has_prev();
        self.down = self.pager.has_next();
        self.update_active_buttons();
    }

    /// The arrows scroll a page (until the menu is placed again the buttons
    /// stay); a click on a button reports its entry's position in the menu.
    pub fn event(&mut self, event: MenuEvent) -> (r: Option<VerticalMenuChoiceMsg>)
        requires
            old(self).wf(),
        ensures
            final(self).wf(),
            final(self).items_view() == old(self).items_view(),
            final(self).pager.total == old(self).pager.total,
            final(self).pager.current == match event {
                MenuEvent::UpClicked => if old(self).up && old(self).pager.current > 0 {
                    (old(self).pager.current - 1) as u16
                } else {
                    old(self).pager.current
                },
                MenuEvent::DownClicked => if old(self).down && old(self).pager.current + 1
                    < old(self).pager.total {
                    (old(self).pager.current + 1) as u16
                } else {
                    old(self).pager.current
                },
                MenuEvent::ItemClicked(_) => old(self).pager.current,
            },
            r == match event {
                MenuEvent::ItemClicked(i) => if i < old(self).active@.len() {
                    Some(VerticalMenuChoiceMsg::Selected(
                        (old(self).pager.current * old(self).menu_capacity + i) as usize,
                    ))
                } else {
                    None
                },
                _ => None,
            },
    {
        match event {
            MenuEvent::UpClicked => {
                if self.up && self.pager.has_prev() {
                    self.pager = Pager { current: self.pager.current - 1, ..self.pager };
                }
                None
            },
            MenuEvent::DownClicked => {
                if self.down && self.pager.has_next() {
                    self.pager = Pager { current: self.pager.current + 1, ..self.pager };
                }
                None
            },
            MenuEvent::ItemClicked(i) => {
                if i < self.active.len() {
                    assert(self.pager.current * self.menu_capacity <= 18) by (nonlinear_arith)
                        requires
                            self.pager.current <= MENU_ITEMS_CAPACITY,
                            self.menu_capacity <= 3,
                    ;
                    let offset = self.pager.current as usize * self.menu_capacity;
                    Some(VerticalMenuChoiceMsg::Selected(offset + i))
                } else {
                    None
                }
            },
        }
    }
}

/// A menu that pages through `item_count` entries three at a time; the
/// caller labels each shown entry.
#[derive(Debug, Clone, Copy)]
pub struct PagedVerticalMenu {
    pub page: u16,
    pub item_count: usize,
    /// Which entry each of the three buttons shows, if any.
    pub shown: [Option<u16>; MENU_MAX_ITEMS],
}

impl PagedVerticalMenu {
    pub open spec fn wf(&self) -> bool {
        self.item_count <= u16::MAX
    }

    pub open spec fn shown_spec(&self, page: int, b: int) -> Option<u16> {
        let i = page * MENU_MAX_ITEMS + b;
        if i < self.item_count {
            Some(i as u16)
        } else {
            None
        }
    }

    /// A menu of `item_count` entries on its first page.
    pub fn new(item_count: usize) -> (r: PagedVerticalMenu)
        requires
            item_count <= u16::MAX,
        ensures
            r.wf(),
            r.page == 0,
            r.item_count == item_count,
            forall|b: int| 0 <= b < MENU_MAX_ITEMS ==> r.shown@[b] == r.shown_spec(0, b),
    {
        let mut menu = PagedVerticalMenu { page: 0, item_count, shown: [None; MENU_MAX_ITEMS] };
        menu.change_page(0);
        menu
    }

    /// Pages of three entries, the last one possibly short.
    pub fn pager(&self) -> (r: Pager)
        requires
            self.wf(),
        ensures
            r.current == self.page,
            r.total == self.item_count / 3 + (if self.item_count % 3 > 0 { 1int } else { 0int }),
    {
        let n_items = MENU_MAX_ITEMS;
        let rest: usize = if self.item_count % n_items > 0 {
            1
        } else {
            0
        };
        let num_pages = self.item_count / n_items + rest;
        Pager { current: self.page, total: num_pages as u16 }
    }

    /// Shows page `active_page`: button `b` shows entry
    /// `active_page * 3 + b` when there is one.
    pub fn change_page(&mut self, active_page: u16)
        requires
            old(self).wf(),
        ensures
            final(self).wf(),
            final(self).page == active_page,
            final(self).item_count == old(self).item_count,
            forall|b: int| 0 <= b < MENU_MAX_ITEMS ==> final(self).shown@[b] == final(self).shown_spec(
                active_page as int,
                b,
            ),
    {
        let mut shown: [Option<u16>; MENU_MAX_ITEMS] = [None; MENU_MAX_ITEMS];
        let mut b: usize = 0;
        while b < MENU_MAX_ITEMS
            invariant
                self.wf(),
                b <= MENU_MAX_ITEMS,
                forall|j: int| 0 <= j < b ==> shown@[j] == self.shown_spec(active_page as int, j),
            decreases MENU_MAX_ITEMS - b,
        {
            let i: u64 = active_page as u64 * MENU_MAX_ITEMS as u64 + b as u64;
            shown[b] = if i < self.item_count as u64 {
                Some(i as u16)
            } else {
                None
            };
            b += 1;
        }
        self.shown = shown;
        self.page = active_page;
    }

    /// A click on button `b` reports the entry it shows.
    pub fn event(&self, b: usize) -> (r: Option<VerticalMenuChoiceMsg>)
        ensures
            r == (if b < MENU_MAX_ITEMS && self.shown@[b as int] is Some {
                Some(VerticalMenuChoiceMsg::Selected((MENU_MAX_ITEMS * self.page + b) as usize))
            } else {
                None
            }),
    {
        if b < MENU_MAX_ITEMS && self.shown[b].is_some() {
            Some(VerticalMenuChoiceMsg::Selected(MENU_MAX_ITEMS * self.page as usize + b))
        } else {
            None
        }
    }
}

} // verus!
