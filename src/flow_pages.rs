//! Flows of pages, each page a possibly multi-screen text with a button
//! row that shows arrows while there is more of the text.
use vstd::prelude::*;
use crate::geometry::Rect;
use crate::pager::Pager;

verus! {

/// What one of the three buttons of a page shows.
#[derive(Debug, Clone, Copy)]
pub enum ButtonDetails {
    LeftArrowIcon,
    UpArrowIcon,
    UpArrowIconWide,
    RightArrowIcon,
    DownArrowIconWide,
    /// The armed "show all" button.
    ShowAllArmed,
    Text(&'static str),
}

/// The three buttons of a page; `None` where there is none.
#[derive(Debug, Clone, Copy)]
pub struct ButtonLayout {
    pub btn_left: Option<ButtonDetails>,
    pub btn_middle: Option<ButtonDetails>,
    pub btn_right: Option<ButtonDetails>,
}

/// What pressing a button does.
#[derive(Debug, Clone, Copy, PartialEq, Eq, Structural)]
pub enum ButtonAction {
    PrevPage,
    NextPage,
    Confirm,
    Cancel,
    Info,
    Nothing,
}

/// The actions of the three buttons.
#[derive(Debug, Clone, Copy, PartialEq, Eq, Structural)]
pub struct ButtonActions {
    pub left: ButtonAction,
    pub middle: ButtonAction,
    pub right: ButtonAction,
}

/// One page of a flow: its text's screens, its buttons and their actions,
/// and an optional title.
#[derive(Debug, Clone, Copy)]
pub struct Page {
    /// The screens of the page's text and the one shown.
    pub pager: Pager,
    pub btn_layout: ButtonLayout,
    pub btn_actions: ButtonActions,
    pub title: Option<&'static str>,
    /// Narrow arrows instead of wide buttons.
    pub slim_arrows: bool,
    /// Where the text was placed.
    pub area: Rect,
}

impl Page {
    /// A page whose text takes `pager.total` screens.
    pub fn new(btn_layout: ButtonLayout, btn_actions: ButtonActions, pager: Pager) -> (r: Page)
        ensures
            r.pager == pager,
            r.btn_layout == btn_layout,
            r.btn_actions == btn_actions,
            r.title is None,
            !r.slim_arrows,
    {
        Page {
            pager,
            btn_layout,
            btn_actions,
            title: None,
            slim_arrows: false,
            area: Rect { x0: 0, y0: 0, x1: 0, y1: 0 },
        }
    }

    pub fn with_title(self, title: &'static str) -> (r: Page)
        ensures
            r == (Page { title: Some(title), ..self }),
    {
        Page { title: Some(title), ..self }
    }

    pub fn with_slim_arrows(self) -> (r: Page)
        ensures
            r == (Page { slim_arrows: true, ..self }),
    {
        Page { slim_arrows: true, ..self }
    }

    /// Places the text in `bounds` and takes all of it.
    pub fn place(&mut self, bounds: Rect) -> (r: Rect)
        ensures
            r == bounds,
            *final(self) == (Page { area: bounds, ..*old(self) }),
    {
        self.area = bounds;
        bounds
    }

    /// The buttons to show on the current screen: while there are earlier
    /// screens the left button is an up arrow (a left arrow when slim; a
    /// wide up arrow unless on the last screen); while there are later ones
    /// the right button is a down arrow (a right arrow when slim) and there
    /// is no middle button. Otherwise the page's own buttons.
    pub fn btn_layout(&self) -> (r: ButtonLayout)
        ensures
            ({
                let has_prev = self.pager.current > 0;
                let has_next = self.pager.current + 1 < self.pager.total;
                &&& r.btn_left == (if has_prev && !has_next {
                    Some(
                        if self.slim_arrows {
                            ButtonDetails::LeftArrowIcon
                        } else {
                            ButtonDetails::UpArrowIcon
                        },
                    )
                } else if has_prev {
                    Some(
                        if self.slim_arrows {
                            ButtonDetails::LeftArrowIcon
                        } else {
                            ButtonDetails::UpArrowIconWide
                        },
                    )
                } else {
                    self.btn_layout.btn_left
                })
                &&& r.btn_middle == (if has_next {
                    None
                } else {
                    self.btn_layout.btn_middle
                })
                &&& r.btn_right == (if has_next {
                    Some(
                        if self.slim_arrows {
                            ButtonDetails::RightArrowIcon
                        } else {
                            ButtonDetails::DownArrowIconWide
                        },
                    )
                } else {
                    self.btn_layout.btn_right
                })
            }),
    {
        let current = self.btn_layout;
        let has_prev = self.pager.has_prev();
        let has_next = self.pager.has_next();
        let btn_left = if has_prev && !has_next {
            if self.slim_arrows {
                Some(ButtonDetails::LeftArrowIcon)
            } else {
                Some(ButtonDetails::UpArrowIcon)
            }
        } else if has_prev {
            if self.slim_arrows {
                Some(ButtonDetails::LeftArrowIcon)
            } else {
                Some(ButtonDetails::UpArrowIconWide)
            }
        } else {
            current.btn_left
        };
        let (btn_middle, btn_right) = if has_next {
            if self.slim_arrows {
                (None, Some(ButtonDetails::RightArrowIcon))
            } else {
                (None, Some(ButtonDetails::DownArrowIconWide))
            }
        } else {
            (current.btn_middle, current.btn_right)
        };
        ButtonLayout { btn_left, btn_middle, btn_right }
    }

    pub fn btn_actions(&self) -> (r: ButtonActions)
        ensures
            r == self.btn_actions,
    {
        self.btn_actions
    }

    pub fn title(&self) -> (r: Option<&'static str>)
        ensures
            r == self.title,
    {
        self.title
    }

    /// Shows screen `to_page` of the text.
    pub fn change_page(&mut self, to_page: u16)
        requires
            to_page < old(self).pager.total,
        ensures
            *final(self) == (Page { pager: Pager { current: to_page, ..old(self).pager }, ..*old(self) }),
    {
        self.pager = Pager { current: to_page, ..self.pager };
    }
}

/// Number of screens of the first `n` pages.
pub open spec fn screens_before(pages: Seq<Page>, n: int) -> int
    decreases n,
{
    if n <= 0 {
        0
    } else {
        screens_before(pages, n - 1) + pages[n - 1].pager.total
    }
}

/// The pages of a flow.
pub struct FlowPages {
    pub pages: Vec<Page>,
}

impl FlowPages {
    pub fn new(pages: Vec<Page>) -> (r: FlowPages)
        ensures
            r.pages@ == pages@,
    {
        FlowPages { pages }
    }

    /// The page at `page_index`.
    pub fn get(&self, page_index: usize) -> (r: Page)
        requires
            page_index < self.pages@.len(),
        ensures
            r == self.pages@[page_index as int],
    {
        self.pages[page_index]
    }

    /// Number of pages.
    pub fn count(&self) -> (r: usize)
        ensures
            r == self.pages@.len(),
    {
        self.pages.len()
    }

    /// Number of screens of all pages, as the scroll bar counts them.
    pub fn scrollbar_page_count(&self) -> (r: u16)
        requires
            screens_before(self.pages@, self.pages@.len() as int) <= u16::MAX,
        ensures
            r == screens_before(self.pages@, self.pages@.len() as int),
    {
        self.scrollbar_page_index(self.pages.len())
    }

    /// Scroll bar position of the first screen of page `page_index`: the
    /// number of screens of the pages before it.
    pub fn scrollbar_page_index(&self, page_index: usize) -> (r: u16)
        requires
            page_index <= self.pages@.len(),
            screens_before(self.pages@, page_index as int) <= u16::MAX,
        ensures
            r == screens_before(self.pages@, page_index as int),
    {
        let mut page_count: u16 = 0;
        let mut i: usize = 0;
        while i < page_index
            invariant
                page_index <= self.pages@.len(),
                i <= page_index,
                page_count == screens_before(self.pages@, i as int),
                screens_before(self.pages@, page_index as int) <= u16::MAX,
            decreases page_index - i,
        {
            proof {
                lemma_screens_before_mono(self.pages@, i + 1, page_index as int);
            }
            page_count = page_count + self.pages[i].pager.total;
            i += 1;
        }
        page_count
    }
}

proof fn lemma_screens_before_mono(pages: Seq<Page>, i: int, j: int)
    requires
        0 <= i <= j <= pages.len(),
    ensures
        screens_before(pages, i) <= screens_before(pages, j),
    decreases j - i,
{
    if i < j {
        lemma_screens_before_mono(pages, i, j - 1);
    }
}

} // verus!
