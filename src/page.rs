//! A paginated screen with a scroll bar, confirm and cancel buttons and an
//! optional hold-to-confirm loader.
use vstd::prelude::*;
use crate::geometry::{Insets, Rect};
use crate::pager::Pager;

verus! {

/// Height of the button row.
pub const BUTTON_HEIGHT: i16 = 50;

/// Width of a narrow button.
pub const BUTTON_WIDTH: i16 = 56;

/// Space between buttons, and between the buttons and the content.
pub const BUTTON_SPACING: i16 = 6;

/// Width of the scroll bar.
pub const SCROLLBAR_WIDTH: i16 = 8;

/// Space between the content and the scroll bar.
pub const SCROLLBAR_SPACE: i16 = 5;

/// Side of the square screen.
pub const SCREEN_SIZE: i16 = 240;

/// Margin around the screen's content.
pub const BORDER: i16 = 6;

/// Icons a page button may carry.
#[derive(Debug, Clone, Copy, PartialEq, Eq, Structural)]
pub enum Icon {
    Cancel,
    Confirm,
    Up,
    Down,
    Back,
}

/// What a button shows.
#[derive(Debug, Clone, Copy)]
pub enum ButtonContent {
    Icon(Icon),
    Text(&'static str),
}

/// Looks of a button.
#[derive(Debug, Clone, Copy, PartialEq, Eq, Structural)]
pub enum ButtonStyleSheet {
    Default,
    Confirm,
    Cancel,
    Danger,
}

/// A button of the page.
#[derive(Debug, Clone, Copy)]
pub struct PageButton {
    pub content: ButtonContent,
    pub style: ButtonStyleSheet,
    pub enabled: bool,
    /// Whether pressing it gives haptic feedback.
    pub haptics: bool,
}

/// What a button reports.
#[derive(Debug, Clone, Copy, PartialEq, Eq, Structural)]
pub enum ButtonMsg {
    Pressed,
    Released,
    Clicked,
    LongPressed,
}

/// The buttons of the page.
#[derive(Debug, Clone, Copy, PartialEq, Eq, Structural)]
pub enum PageButtonId {
    Cancel,
    Confirm,
    Prev,
    Next,
}

/// Directions of a swipe over the page.
#[derive(Debug, Clone, Copy, PartialEq, Eq, Structural)]
pub enum SwipeDirection {
    Up,
    Down,
    Left,
    Right,
}

/// The swipe directions the page reacts to.
#[derive(Debug, Clone, Copy, PartialEq, Eq, Structural)]
pub struct SwipeAllow {
    pub up: bool,
    pub down: bool,
    pub left: bool,
    pub right: bool,
}

/// What the page reports to its owner.
#[derive(Debug, Clone, Copy, PartialEq, Eq, Structural)]
pub enum PageMsg {
    Confirmed,
    Cancelled,
    SwipeLeft,
    SwipeRight,
}

/// State of the hold-to-confirm loader.
#[derive(Debug, Clone, Copy, PartialEq, Eq, Structural)]
pub enum LoaderState {
    /// Not drawn.
    Initial,
    Growing,
    Shrinking,
}

/// What a handler decides.
#[derive(Debug, Clone, Copy, PartialEq, Eq, Structural)]
pub enum HandleResult<T> {
    /// Report this to the owner.
    Return(T),
    PrevPage,
    NextPage,
    /// Nothing to do; hand the event on.
    Continue,
}

pub open spec fn icon_button(icon: Icon, style: ButtonStyleSheet, enabled: bool) -> PageButton {
    PageButton { content: ButtonContent::Icon(icon), style, enabled, haptics: true }
}

/// A paginated content with its buttons: next/confirm on the right,
/// previous/cancel on the left.
#[derive(Clone, Copy)]
pub struct ButtonPage {
    /// The content's pages and the one shown.
    pub pager: Pager,
    pub background: u16,
    /// Hold-to-confirm whenever this is `Some`.
    pub loader: Option<LoaderState>,
    pub button_cancel: Option<PageButton>,
    pub button_confirm: PageButton,
    pub button_prev: PageButton,
    pub button_next: PageButton,
    /// Show cancel (rather than previous) on every page.
    pub cancel_from_any_page: bool,
    /// Whether left swipes go to the owner.
    pub swipe_left: bool,
    /// Whether right swipes go to the owner.
    pub swipe_right: bool,
    pub swipe: SwipeAllow,
    /// Whether to fade the backlight back in after the next paint.
    pub fade: bool,
}

impl ButtonPage {
    /// A page over a content of `page_count` pages, on `background`.
    pub fn new(page_count: u16, background: u16) -> (r: ButtonPage)
        requires
            page_count >= 1,
        ensures
            r.pager == (Pager { current: 0, total: page_count }),
            r.background == background,
            r.loader is None,
            r.button_cancel == Some(icon_button(Icon::Cancel, ButtonStyleSheet::Default, true)),
            r.button_confirm == icon_button(Icon::Confirm, ButtonStyleSheet::Confirm, true),
            r.button_prev == icon_button(Icon::Up, ButtonStyleSheet::Default, false),
            r.button_next == icon_button(Icon::Down, ButtonStyleSheet::Default, true),
            !r.cancel_from_any_page,
            !r.swipe_left,
            !r.swipe_right,
            r.swipe == (SwipeAllow { up: false, down: false, left: false, right: false }),
            !r.fade,
    {
        ButtonPage {
            pager: Pager::new(page_count),
            background,
            loader: None,
            button_cancel: Some(
                PageButton {
                    content: ButtonContent::Icon(Icon::Cancel),
                    style: ButtonStyleSheet::Default,
                    enabled: true,
                    haptics: true,
                },
            ),
            button_confirm: PageButton {
                content: ButtonContent::Icon(Icon::Confirm),
                style: ButtonStyleSheet::Confirm,
                enabled: true,
                haptics: true,
            },
            button_prev: PageButton {
                content: ButtonContent::Icon(Icon::Up),
                style: ButtonStyleSheet::Default,
                enabled: false,
                haptics: true,
            },
            button_next: PageButton {
                content: ButtonContent::Icon(Icon::Down),
                style: ButtonStyleSheet::Default,
                enabled: true,
                haptics: true,
            },
            cancel_from_any_page: false,
            swipe_left: false,
            swipe_right: false,
            swipe: SwipeAllow { up: false, down: false, left: false, right: false },
            fade: false,
        }
    }

    pub fn without_cancel(self) -> (r: ButtonPage)
        ensures
            r == (ButtonPage { button_cancel: None, ..self }),
    {
        ButtonPage { button_cancel: None, ..self }
    }

    /// The cancel button for label `left`: an up arrow for `"^"`, a back
    /// arrow for `"<"`, the text itself otherwise, and the cancel icon for no
    /// label.
    pub fn with_cancel_button(self, left: Option<&'static str>) -> (r: ButtonPage)
        ensures
            r == (ButtonPage {
                button_cancel: Some(
                    match left {
                        Some(verb) => if verb@ == seq!['^'] {
                            icon_button(Icon::Up, ButtonStyleSheet::Default, true)
                        } else if verb@ == seq!['<'] {
                            icon_button(Icon::Back, ButtonStyleSheet::Default, true)
                        } else {
                            PageButton {
                                content: ButtonContent::Text(verb),
                                style: ButtonStyleSheet::Default,
                                enabled: true,
                                haptics: true,
                            }
                        },
                        None => icon_button(Icon::Cancel, ButtonStyleSheet::Default, true),
                    },
                ),
                ..self
            }),
    {
        let cancel = match left {
            Some(verb) => {
                let is_single = verb.unicode_len() == 1;
                if is_single && verb.get_char(0) == '^' {
                    assert(verb@ =~= seq!['^']);
                    PageButton {
                        content: ButtonContent::Icon(Icon::Up),
                        style: ButtonStyleSheet::Default,
                        enabled: true,
                        haptics: true,
                    }
                } else if is_single && verb.get_char(0) == '<' {
                    assert(verb@ =~= seq!['<']);
                    PageButton {
                        content: ButtonContent::Icon(Icon::Back),
                        style: ButtonStyleSheet::Default,
                        enabled: true,
                        haptics: true,
                    }
                } else {
                    PageButton {
                        content: ButtonContent::Text(verb),
                        style: ButtonStyleSheet::Default,
                        enabled: true,
                        haptics: true,
                    }
                }
            },
            None => PageButton {
                content: ButtonContent::Icon(Icon::Cancel),
                style: ButtonStyleSheet::Default,
                enabled: true,
                haptics: true,
            },
        };
        ButtonPage { button_cancel: Some(cancel), ..self }
    }

    /// A confirm button labelled `right` (the confirm icon when `None`) and a
    /// cancel button for `left`, as `with_cancel_button` makes it.
    pub fn with_cancel_confirm(self, left: Option<&'static str>, right: Option<&'static str>) -> (r: ButtonPage)
        ensures
            r == (ButtonPage {
                button_confirm: match right {
                    Some(verb) => PageButton {
                        content: ButtonContent::Text(verb),
                        style: ButtonStyleSheet::Confirm,
                        enabled: true,
                        haptics: true,
                    },
                    None => icon_button(Icon::Confirm, ButtonStyleSheet::Confirm, true),
                },
                ..self
            }.with_cancel_button_spec(left)),
    {
        let confirm = match right {
            Some(verb) => PageButton {
                content: ButtonContent::Text(verb),
                style: ButtonStyleSheet::Confirm,
                enabled: true,
                haptics: true,
            },
            None => PageButton {
                content: ButtonContent::Icon(Icon::Confirm),
                style: ButtonStyleSheet::Confirm,
                enabled: true,
                haptics: true,
            },
        };
        let page = ButtonPage { button_confirm: confirm, ..self };
        page.with_cancel_button(left)
    }

    /// What `with_cancel_button(left)` makes of this page.
    pub open spec fn with_cancel_button_spec(self, left: Option<&'static str>) -> ButtonPage {
        ButtonPage {
            button_cancel: Some(
                match left {
                    Some(verb) => if verb@ == seq!['^'] {
                        icon_button(Icon::Up, ButtonStyleSheet::Default, true)
                    } else if verb@ == seq!['<'] {
                        icon_button(Icon::Back, ButtonStyleSheet::Default, true)
                    } else {
                        PageButton {
                            content: ButtonContent::Text(verb),
                            style: ButtonStyleSheet::Default,
                            enabled: true,
                            haptics: true,
                        }
                    },
                    None => icon_button(Icon::Cancel, ButtonStyleSheet::Default, true),
                },
            ),
            ..self
        }
    }

    /// Back arrows instead of previous and cancel, and going back possible
    /// from any page.
    pub fn with_back_button(self) -> (r: ButtonPage)
        ensures
            r == (ButtonPage {
                cancel_from_any_page: true,
                button_prev: icon_button(Icon::Back, ButtonStyleSheet::Default, false),
                button_cancel: Some(icon_button(Icon::Back, ButtonStyleSheet::Default, true)),
                ..self
            }),
    {
        ButtonPage {
            cancel_from_any_page: true,
            button_prev: PageButton {
                content: ButtonContent::Icon(Icon::Back),
                style: ButtonStyleSheet::Default,
                enabled: false,
                haptics: true,
            },
            button_cancel: Some(
                PageButton {
                    content: ButtonContent::Icon(Icon::Back),
                    style: ButtonStyleSheet::Default,
                    enabled: true,
                    haptics: true,
                },
            ),
            ..self
        }
    }

    /// Hold-to-confirm: the confirm button says `label` and the loader grows
    /// while it is held.
    pub fn with_hold(self, label: &'static str) -> (r: ButtonPage)
        ensures
            r == (ButtonPage {
                button_confirm: PageButton {
                    content: ButtonContent::Text(label),
                    style: ButtonStyleSheet::Confirm,
                    enabled: true,
                    haptics: false,
                },
                loader: Some(LoaderState::Initial),
                ..self
            }),
    {
        ButtonPage {
            button_confirm: PageButton {
                content: ButtonContent::Text(label),
                style: ButtonStyleSheet::Confirm,
                enabled: true,
                haptics: false,
            },
            loader: Some(LoaderState::Initial),
            ..self
        }
    }

    pub fn with_confirm_style(self, style: ButtonStyleSheet) -> (r: ButtonPage)
        ensures
            r == (ButtonPage { button_confirm: PageButton { style, ..self.button_confirm }, ..self }),
    {
        ButtonPage { button_confirm: PageButton { style, ..self.button_confirm }, ..self }
    }

    /// Swipes up and down follow the pages; left and right as configured.
    pub fn setup_swipe(&mut self)
        ensures
            *final(self) == (ButtonPage {
                swipe: SwipeAllow {
                    up: old(self).pager.current + 1 < old(self).pager.total,
                    down: old(self).pager.current > 0,
                    left: old(self).swipe_left,
                    right: old(self).swipe_right,
                },
                ..*old(self)
            }),
    {
        self.swipe = SwipeAllow {
            up: self.pager.has_next(),
            down: self.pager.has_prev(),
            left: self.swipe_left,
            right: self.swipe_right,
        };
    }

    /// Moves `step` pages on (back when negative), within the pages, and
    /// updates swipes and the previous button to the new page.
    pub fn change_page(&mut self, step: i32)
        requires
            old(self).pager.wf(),
        ensures
            final(self).pager.wf(),
            final(self).pager.total == old(self).pager.total,
            final(self).pager.current as int == crate::geometry::clamp_spec(
                old(self).pager.current + step,
                0,
                old(self).pager.total - 1,
            ),
            final(self).swipe == (SwipeAllow {
                up: final(self).pager.current + 1 < final(self).pager.total,
                down: final(self).pager.current > 0,
                left: old(self).swipe_left,
                right: old(self).swipe_right,
            }),
            final(self).button_prev == (PageButton {
                enabled: final(self).pager.current > 0,
                ..old(self).button_prev
            }),
            final(self).fade,
            final(self).button_cancel == old(self).button_cancel,
            final(self).button_confirm == old(self).button_confirm,
            final(self).button_next == old(self).button_next,
            final(self).loader == old(self).loader,
            final(self).cancel_from_any_page == old(self).cancel_from_any_page,
            final(self).swipe_left == old(self).swipe_left,
            final(self).swipe_right == old(self).swipe_right,
    {
        self.pager.go_to_relative(step);
        self.setup_swipe();
        self.button_prev = PageButton { enabled: self.pager.has_prev(), ..self.button_prev };
        self.fade = true;
    }

    /// Cancel shows on the first page, or on all when so configured.
    pub fn is_cancel_visible(&self) -> (r: bool)
        ensures
            r == (self.cancel_from_any_page || self.pager.current == 0),
    {
        self.cancel_from_any_page || !self.pager.has_prev()
    }

    /// Where the loader is drawn: the screen within its borders, above the
    /// button row.
    pub fn loader_area() -> (r: Rect)
        ensures
            r == (Rect {
                x0: BORDER,
                y0: BORDER,
                x1: (SCREEN_SIZE - BORDER) as i16,
                y1: (SCREEN_SIZE - BORDER - BUTTON_HEIGHT - BUTTON_SPACING) as i16,
            }),
    {
        Rect::new(0, 0, SCREEN_SIZE, SCREEN_SIZE).inset(Insets::new(BORDER, BORDER, BORDER, BORDER)).inset(
            Insets::bottom(BUTTON_HEIGHT + BUTTON_SPACING),
        )
    }

    /// A swipe in a direction the page allows: up for the next page, down
    /// for the previous one, left and right to the owner when configured.
    /// What a swipe in `direction` does to the page.
    pub open spec fn swipe_decision(&self, direction: SwipeDirection) -> HandleResult<PageMsg> {
        match direction {
            SwipeDirection::Up => if self.swipe.up {
                HandleResult::NextPage
            } else {
                HandleResult::Continue
            },
            SwipeDirection::Down => if self.swipe.down {
                HandleResult::PrevPage
            } else {
                HandleResult::Continue
            },
            SwipeDirection::Left => if self.swipe.left && self.swipe_left {
                HandleResult::Return(PageMsg::SwipeLeft)
            } else {
                HandleResult::Continue
            },
            SwipeDirection::Right => if self.swipe.right && self.swipe_right {
                HandleResult::Return(PageMsg::SwipeRight)
            } else {
                HandleResult::Continue
            },
        }
    }

    pub fn handle_swipe(&self, direction: SwipeDirection) -> (r: HandleResult<PageMsg>)
        ensures
            r == self.swipe_decision(direction),
    {
        match direction {
            SwipeDirection::Up => if self.swipe.up {
                HandleResult::NextPage
            } else {
                HandleResult::Continue
            },
            SwipeDirection::Down => if self.swipe.down {
                HandleResult::PrevPage
            } else {
                HandleResult::Continue
            },
            SwipeDirection::Left => if self.swipe.left && self.swipe_left {
                HandleResult::Return(PageMsg::SwipeLeft)
            } else {
                HandleResult::Continue
            },
            SwipeDirection::Right => if self.swipe.right && self.swipe_right {
                HandleResult::Return(PageMsg::SwipeRight)
            } else {
                HandleResult::Continue
            },
        }
    }

    /// Button `button` reported `msg` (buttons that are disabled report
    /// nothing). Before the last page the right button turns the page; on
    /// it, the confirm button's messages go to the owner, a click as
    /// `Confirmed`. The left button cancels where cancel shows and turns back
    /// elsewhere.
    /// What a message `msg` of button `button` does to the page.
    pub open spec fn button_decision(&self, button: PageButtonId, msg: ButtonMsg) -> HandleResult<(Option<PageMsg>, Option<ButtonMsg>)> {
        if self.pager.current + 1 < self.pager.total && button == PageButtonId::Next
            && self.button_next.enabled && msg == ButtonMsg::Clicked {
            HandleResult::NextPage
        } else if !(self.pager.current + 1 < self.pager.total) && button == PageButtonId::Confirm
            && self.button_confirm.enabled {
            if msg == ButtonMsg::Clicked {
                HandleResult::Return((Some(PageMsg::Confirmed), Some(msg)))
            } else {
                HandleResult::Return((None, Some(msg)))
            }
        } else if (self.cancel_from_any_page || self.pager.current == 0) && button
            == PageButtonId::Cancel && self.button_cancel is Some
            && self.button_cancel->0.enabled && msg == ButtonMsg::Clicked {
            HandleResult::Return((Some(PageMsg::Cancelled), None))
        } else if !(self.cancel_from_any_page || self.pager.current == 0) && button
            == PageButtonId::Prev && self.button_prev.enabled && msg == ButtonMsg::Clicked {
            HandleResult::PrevPage
        } else {
            HandleResult::Continue
        }
    }

    pub fn handle_button(&self, button: PageButtonId, msg: ButtonMsg) -> (r: HandleResult<(Option<PageMsg>, Option<ButtonMsg>)>)
        ensures
            r == self.button_decision(button, msg),
    {
        if self.pager.has_next() {
            if button == PageButtonId::Next && self.button_next.enabled && msg == ButtonMsg::Clicked {
                return HandleResult::NextPage;
            }
        } else if button == PageButtonId::Confirm && self.button_confirm.enabled {
            if msg == ButtonMsg::Clicked {
                return HandleResult::Return((Some(PageMsg::Confirmed), Some(msg)));
            } else {
                return HandleResult::Return((None, Some(msg)));
            }
        }
        if self.is_cancel_visible() {
            if button == PageButtonId::Cancel && msg == ButtonMsg::Clicked {
                if let Some(b) = self.button_cancel {
                    if b.enabled {
                        return HandleResult::Return((Some(PageMsg::Cancelled), None));
                    }
                }
            }
        } else if button == PageButtonId::Prev && self.button_prev.enabled && msg == ButtonMsg::Clicked {
            return HandleResult::PrevPage;
        }
        HandleResult::Continue
    }

    /// Drives the hold-to-confirm loader. `shrunk` says the loader finished
    /// shrinking; `button_msg` is what the confirm button reported; `grown`
    /// says the loader has grown fully (or animations are off). A click on a
    /// fully grown loader confirms; otherwise pressing grows the loader and
    /// releasing or clicking early shrinks it.
    pub fn handle_hold(&mut self, shrunk: bool, button_msg: Option<ButtonMsg>, grown: bool) -> (r: HandleResult<PageMsg>)
        ensures
            old(self).loader is None ==> r == HandleResult::<PageMsg>::Continue && *final(self)
                == *old(self),
            old(self).loader is Some ==> {
                &&& r == (if button_msg == Some(ButtonMsg::Clicked) && grown {
                    HandleResult::Return(PageMsg::Confirmed)
                } else {
                    HandleResult::Continue
                })
                &&& final(self).loader == Some(
                    match button_msg {
                        Some(ButtonMsg::Pressed) => LoaderState::Growing,
                        Some(ButtonMsg::Released) => LoaderState::Shrinking,
                        Some(ButtonMsg::Clicked) => if grown {
                            if shrunk {
                                LoaderState::Initial
                            } else {
                                old(self).loader->0
                            }
                        } else {
                            LoaderState::Shrinking
                        },
                        _ => if shrunk {
                            LoaderState::Initial
                        } else {
                            old(self).loader->0
                        },
                    },
                )
                &&& *final(self) == (ButtonPage { loader: final(self).loader, ..*old(self) })
            },
    {
        let mut state = match self.loader {
            None => {
                return HandleResult::Continue;
            },
            Some(s) => s,
        };
        if shrunk {
            state = LoaderState::Initial;
        }
        let result = match button_msg {
            Some(ButtonMsg::Pressed) => {
                state = LoaderState::Growing;
                HandleResult::Continue
            },
            Some(ButtonMsg::Released) => {
                state = LoaderState::Shrinking;
                HandleResult::Continue
            },
            Some(ButtonMsg::Clicked) => {
                if grown {
                    HandleResult::Return(PageMsg::Confirmed)
                } else {
                    state = LoaderState::Shrinking;
                    HandleResult::Continue
                }
            },
            _ => HandleResult::Continue,
        };
        self.loader = Some(state);
        result
    }
}


/// What happens to the page in one step: a swipe it recognised, what a
/// button reported, whether the loader finished shrinking, and whether the
/// loader is fully grown (or animations are off).
#[derive(Debug, Clone, Copy)]
pub struct PageEvent {
    pub swipe: Option<SwipeDirection>,
    pub button: Option<(PageButtonId, ButtonMsg)>,
    pub loader_shrunk: bool,
    pub loader_grown: bool,
}

impl ButtonPage {
    /// The left button is narrow when there is no cancel button, when it is
    /// a text of at most four bytes, or when it is an icon beside a confirm
    /// text.
    pub open spec fn small_left_button_spec(&self) -> bool {
        match self.button_cancel {
            None => true,
            Some(cancel) => match (cancel.content, self.button_confirm.content) {
                (ButtonContent::Text(t), _) => t.len() <= 4,
                (ButtonContent::Icon(_), ButtonContent::Icon(_)) => false,
                _ => true,
            },
        }
    }

    pub fn small_left_button(&self) -> (r: bool)
        ensures
            r == self.small_left_button_spec(),
    {
        match self.button_cancel {
            None => true,
            Some(cancel) => match (cancel.content, self.button_confirm.content) {
                (ButtonContent::Text(t), _) => t.len() <= 4,
                (ButtonContent::Icon(_), ButtonContent::Icon(_)) => false,
                _ => true,
            },
        }
    }

    /// Lays the page out in `bounds`. The content takes `single_pages` pages
    /// in the area without a scroll bar; when that is more than one it is
    /// laid out again beside the scroll bar, where it takes `scrolled_pages`.
    /// Returns the layout and whether confirm takes the whole button row
    /// (a single page without cancel).
    pub fn place(&mut self, bounds: Rect, single_pages: u16, scrolled_pages: u16) -> (r: (PageLayout, bool))
        requires
            bounds.wf(),
            bounds.y1 - bounds.y0 >= BUTTON_HEIGHT + BUTTON_SPACING,
            bounds.x1 - bounds.x0 >= BUTTON_WIDTH + BUTTON_SPACING,
            single_pages >= 1,
            scrolled_pages >= 1,
        ensures
            ({
                let count = if single_pages > 1 { scrolled_pages } else { single_pages };
                &&& final(self).pager == (Pager { current: 0, total: count })
                &&& r.1 == (count == 1 && old(self).button_cancel is None)
                &&& r.0 == PageLayout::new_spec(bounds, old(self).small_left_button_spec())
                &&& final(self).swipe == (SwipeAllow {
                    up: count > 1,
                    down: false,
                    left: old(self).swipe_left,
                    right: old(self).swipe_right,
                })
                &&& *final(self) == (ButtonPage { pager: final(self).pager, swipe: final(self).swipe, ..*old(self) })
            }),
    {
        let layout = PageLayout::new(bounds, self.small_left_button());
        let page_count = if single_pages > 1 {
            scrolled_pages
        } else {
            single_pages
        };
        let confirm_wide = page_count == 1 && self.button_cancel.is_none();
        self.pager = Pager::new(page_count);
        self.setup_swipe();
        (layout, confirm_wide)
    }

    /// One step of the page: a recognised swipe turns the page or goes to
    /// the owner; otherwise the buttons act, and with hold-to-confirm the
    /// loader decides on the confirm button's messages.
    pub fn event(&mut self, event: PageEvent) -> (r: Option<PageMsg>)
        requires
            old(self).pager.wf(),
        ensures
            final(self).pager.wf(),
            final(self).pager.total == old(self).pager.total,
            event.swipe matches Some(d) ==> match old(self).swipe_decision(d) {
                HandleResult::Return(m) => r == Some(m) && *final(self) == *old(self),
                HandleResult::NextPage => r is None && final(self).pager.current as int
                    == crate::geometry::clamp_spec(old(self).pager.current + 1, 0, old(self).pager.total - 1),
                HandleResult::PrevPage => r is None && final(self).pager.current as int
                    == crate::geometry::clamp_spec(old(self).pager.current - 1, 0, old(self).pager.total - 1),
                HandleResult::Continue => true,
            },
            event.swipe is None && event.button is None && old(self).loader is None ==> r is None
                && *final(self) == *old(self),
            event.swipe is None && old(self).loader is None && event.button is Some ==> match old(
                self,
            ).button_decision((event.button->0).0, (event.button->0).1) {
                HandleResult::Return((m, _)) => r == m && *final(self) == *old(self),
                HandleResult::NextPage => r is None && final(self).pager.current as int
                    == crate::geometry::clamp_spec(old(self).pager.current + 1, 0, old(self).pager.total - 1),
                HandleResult::PrevPage => r is None && final(self).pager.current as int
                    == crate::geometry::clamp_spec(old(self).pager.current - 1, 0, old(self).pager.total - 1),
                HandleResult::Continue => r is None && *final(self) == *old(self),
            },
    {
        if let Some(direction) = event.swipe {
            match self.handle_swipe(direction) {
                HandleResult::Return(m) => {
                    return Some(m);
                },
                HandleResult::PrevPage => {
                    self.change_page(-1);
                    return None;
                },
                HandleResult::NextPage => {
                    self.change_page(1);
                    return None;
                },
                HandleResult::Continue => {},
            }
        }
        let mut confirm_button_msg: Option<ButtonMsg> = None;
        let mut button_result: Option<PageMsg> = None;
        if let Some((button, msg)) = event.button {
            match self.handle_button(button, msg) {
                HandleResult::Return((Some(m), None)) => {
                    return Some(m);
                },
                HandleResult::Return((m, b)) => {
                    button_result = m;
                    confirm_button_msg = b;
                },
                HandleResult::PrevPage => {
                    self.change_page(-1);
                    return None;
                },
                HandleResult::NextPage => {
                    self.change_page(1);
                    return None;
                },
                HandleResult::Continue => {},
            }
        }
        if self.loader.is_some() {
            return match self.handle_hold(event.loader_shrunk, confirm_button_msg, event.loader_grown) {
                HandleResult::Return(m) => Some(m),
                _ => None,
            };
        }
        button_result
    }
}

/// The areas of a page: content (with or without room for the scroll
/// bar), the scroll bar, and the button row split in two.
#[derive(Debug, Clone, Copy, PartialEq, Eq, Structural)]
pub struct PageLayout {
    /// Content when it fits on a single page (no scroll bar).
    pub content_single_page: Rect,
    /// Content when it takes several pages.
    pub content: Rect,
    pub scrollbar: Rect,
    pub button_left: Rect,
    pub button_right: Rect,
    pub button_both: Rect,
}

impl PageLayout {
    /// The layout `new` makes of `area`: the button row at the bottom, the
    /// content above it (short of the spacing), the scroll bar at the
    /// content's right, and the row split at the left button's width.
    pub open spec fn new_spec(area: Rect, small_left_button: bool) -> PageLayout {
        let yb = area.y1 - BUTTON_HEIGHT;
        let yc = yb - BUTTON_SPACING;
        let w = if small_left_button {
            BUTTON_WIDTH as int
        } else {
            (area.x1 - area.x0 - BUTTON_SPACING) / 2
        };
        PageLayout {
            content_single_page: Rect { y1: yc as i16, ..area },
            content: Rect { x1: (area.x1 - SCROLLBAR_SPACE - SCROLLBAR_WIDTH) as i16, y1: yc as i16, ..area },
            scrollbar: Rect { x0: (area.x1 - SCROLLBAR_WIDTH) as i16, y1: yc as i16, ..area },
            button_left: Rect { y0: yb as i16, x1: (area.x0 + w) as i16, ..area },
            button_right: Rect { y0: yb as i16, x0: (area.x0 + w + BUTTON_SPACING) as i16, ..area },
            button_both: Rect { y0: yb as i16, ..area },
        }
    }

    /// Lays out `area`: the button row at its bottom, the content above it
    /// with a scroll bar at its right, and the row split into a left button
    /// (narrow when `small_left_button`, else half the row) and a right one.
    pub fn new(area: Rect, small_left_button: bool) -> (r: PageLayout)
        requires
            area.wf(),
            area.y1 - area.y0 >= BUTTON_HEIGHT + BUTTON_SPACING,
            area.x1 - area.x0 >= BUTTON_WIDTH + BUTTON_SPACING,
        ensures
            r == PageLayout::new_spec(area, small_left_button),
    {
        let (area, button_both) = area.split_bottom(BUTTON_HEIGHT);
        let area = area.inset(Insets::bottom(BUTTON_SPACING));
        let (_space, content) = area.split_left(0);
        let (content_single_page, _space) = content.split_right(0);
        let (content, scrollbar) = content.split_right(SCROLLBAR_SPACE + SCROLLBAR_WIDTH);
        let (_space, scrollbar) = scrollbar.split_left(SCROLLBAR_SPACE);
        let width = if small_left_button {
            BUTTON_WIDTH
        } else {
            (button_both.width() - BUTTON_SPACING) / 2
        };
        let (button_left, button_right) = button_both.split_left(width);
        let button_right = button_right.inset(Insets::left(BUTTON_SPACING));
        PageLayout { content_single_page, content, scrollbar, button_left, button_right, button_both }
    }
}

} // verus!
