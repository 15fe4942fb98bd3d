//! Address details shown page by page with side arrows: the QR code, the
//! details, then one page per xpub, where an xpub too long for one screen
//! opens into sub-pages scrolled with wide arrows.
use vstd::prelude::*;
use crate::address_details::{
    new_xpubs, push_xpub, xpubs_of, xpubs_slice, Error, BASE_PAGES, MAX_XPUBS,
};
use crate::flow_pages::{ButtonDetails, ButtonLayout};

verus! {

/// The buttons of the layout.
#[derive(Debug, Clone, Copy, PartialEq, Eq, Structural)]
pub enum ButtonPos {
    Left,
    Middle,
    Right,
}

/// Address details with sub-pages for long xpubs.
pub struct AddressDetails {
    pub qr_address: String,
    pub case_sensitive: bool,
    pub account: Option<String>,
    pub path: Option<String>,
    pub xpubs: heapless::Vec<(String, String), MAX_XPUBS>,
    pub current_page: usize,
    pub current_subpage: usize,
    /// Screens the xpub shown takes, as laid out by the caller.
    pub xpub_screens: usize,
    pub buttons: ButtonLayout,
}

impl AddressDetails {
    pub open spec fn xpubs_view(&self) -> Seq<(String, String)> {
        xpubs_of(self.xpubs)
    }

    pub open spec fn page_count_spec(&self) -> int {
        BASE_PAGES + self.xpubs_view().len()
    }

    pub open spec fn subpages_spec(&self) -> int {
        if self.current_page > 1 {
            self.xpub_screens as int
        } else {
            1
        }
    }

    /// The position is within the pages and sub-pages.
    pub open spec fn wf(&self) -> bool {
        &&& self.xpubs_view().len() <= MAX_XPUBS
        &&& self.current_page < self.page_count_spec()
        &&& self.xpub_screens >= 1
        &&& self.current_subpage < self.subpages_spec()
    }

    /// The buttons for the position: on a sub-page a wide up arrow and,
    /// unless on the last sub-page, a wide down arrow; otherwise a left
    /// arrow, "show all" on an xpub of several screens, and a right arrow
    /// unless on the last page.
    pub open spec fn layout_spec(&self) -> ButtonLayout {
        if self.current_subpage > 0 {
            ButtonLayout {
                btn_left: Some(ButtonDetails::UpArrowIconWide),
                btn_middle: None,
                btn_right: if self.current_subpage == self.subpages_spec() - 1 {
                    None
                } else {
                    Some(ButtonDetails::DownArrowIconWide)
                },
            }
        } else {
            ButtonLayout {
                btn_left: Some(ButtonDetails::LeftArrowIcon),
                btn_middle: if self.current_page > 1 && self.subpages_spec() > 1 {
                    Some(ButtonDetails::ShowAllArmed)
                } else {
                    None
                },
                btn_right: if self.current_page == self.page_count_spec() - 1 {
                    None
                } else {
                    Some(ButtonDetails::RightArrowIcon)
                },
            }
        }
    }

    pub fn new(qr_address: String, case_sensitive: bool, account: Option<String>, path: Option<String>) -> (r: AddressDetails)
        ensures
            r.wf(),
            r.xpubs_view() == Seq::<(String, String)>::empty(),
            r.current_page == 0,
            r.current_subpage == 0,
            r.buttons == (ButtonLayout {
                btn_left: Some(ButtonDetails::LeftArrowIcon),
                btn_middle: None,
                btn_right: Some(ButtonDetails::RightArrowIcon),
            }),
    {
        AddressDetails {
            qr_address,
            case_sensitive,
            account,
            path,
            xpubs: new_xpubs(),
            current_page: 0,
            current_subpage: 0,
            xpub_screens: 1,
            buttons: ButtonLayout {
                btn_left: Some(ButtonDetails::LeftArrowIcon),
                btn_middle: None,
                btn_right: Some(ButtonDetails::RightArrowIcon),
            },
        }
    }

    /// Adds an xpub page; fails when `MAX_XPUBS` are held.
    pub fn add_xpub(&mut self, title: String, xpub: String) -> (r: Result<(), Error>)
        requires
            old(self).wf(),
        ensures
            final(self).wf(),
            r is Ok <==> old(self).xpubs_view().len() < MAX_XPUBS,
            r is Ok ==> final(self).xpubs_view() == old(self).xpubs_view().push((title, xpub)),
            r is Err ==> final(self).xpubs_view() == old(self).xpubs_view(),
            final(self).current_page == old(self).current_page,
            final(self).current_subpage == old(self).current_subpage,
    {
        match push_xpub(&mut self.xpubs, (title, xpub)) {
            Ok(()) => Ok(()),
            Err(_) => Err(Error::OutOfRange),
        }
    }

    pub fn is_in_subpage(&self) -> (r: bool)
        ensures
            r == (self.current_subpage > 0),
    {
        self.current_subpage > 0
    }

    pub fn is_xpub_page(&self) -> (r: bool)
        ensures
            r == (self.current_page > 1),
    {
        self.current_page > 1
    }

    pub fn page_count(&self) -> (r: usize)
        requires
            self.wf(),
        ensures
            r == self.page_count_spec(),
    {
        BASE_PAGES + xpubs_slice(&self.xpubs).len()
    }

    pub fn is_last_page(&self) -> (r: bool)
        requires
            self.wf(),
        ensures
            r == (self.current_page == self.page_count_spec() - 1),
    {
        self.current_page == self.page_count() - 1
    }

    pub fn subpages_in_current_page(&self) -> (r: usize)
        ensures
            r == self.subpages_spec(),
    {
        if self.is_xpub_page() {
            self.xpub_screens
        } else {
            1
        }
    }

    pub fn is_last_subpage(&self) -> (r: bool)
        requires
            self.wf(),
        ensures
            r == (self.current_subpage == self.subpages_spec() - 1),
    {
        self.current_subpage == self.subpages_in_current_page() - 1
    }

    /// The buttons for the current position.
    pub fn get_button_layout(&self) -> (r: ButtonLayout)
        requires
            self.wf(),
        ensures
            r == self.layout_spec(),
    {
        if self.is_in_subpage() {
            let right = if self.is_last_subpage() {
                None
            } else {
                Some(ButtonDetails::DownArrowIconWide)
            };
            ButtonLayout { btn_left: Some(ButtonDetails::UpArrowIconWide), btn_middle: None, btn_right: right }
        } else {
            let middle = if self.is_xpub_page() && self.subpages_in_current_page() > 1 {
                Some(ButtonDetails::ShowAllArmed)
            } else {
                None
            };
            let right = if self.is_last_page() {
                None
            } else {
                Some(ButtonDetails::RightArrowIcon)
            };
            ButtonLayout { btn_left: Some(ButtonDetails::LeftArrowIcon), btn_middle: middle, btn_right: right }
        }
    }

    /// Shows the buttons for the current position.
    pub fn update_buttons(&mut self)
        requires
            old(self).wf(),
        ensures
            final(self).buttons == old(self).layout_spec(),
            *final(self) == (AddressDetails { buttons: final(self).buttons, ..*old(self) }),
    {
        self.buttons = self.get_button_layout();
    }

    /// The xpub the current page shows, if it is an xpub page.
    pub fn fill_xpub_page(&self) -> (r: Option<&(String, String)>)
        requires
            self.wf(),
        ensures
            self.current_page > 1 ==> r == Some(&self.xpubs_view()[self.current_page - 2]),
            self.current_page <= 1 ==> r is None,
    {
        if self.is_xpub_page() {
            Some(&xpubs_slice(&self.xpubs)[self.current_page - 2])
        } else {
            None
        }
    }

    /// Handles a press of the button at `button`, if the layout has one
    /// there: the arrows scroll sub-pages or pages, "show all" opens the
    /// sub-pages, and the left arrow on the first page leaves (returns
    /// `Some`). `screens` is how many screens the xpub now shown takes.
    pub fn event(&mut self, button: ButtonPos, screens: usize) -> (r: Option<()>)
        requires
            old(self).wf(),
            screens >= 1,
        ensures
            final(self).wf(),
            final(self).xpubs_view() == old(self).xpubs_view(),
            ({
                let layout = old(self).layout_spec();
                let present = match button {
                    ButtonPos::Left => layout.btn_left is Some,
                    ButtonPos::Middle => layout.btn_middle is Some,
                    ButtonPos::Right => layout.btn_right is Some,
                };
                if !present {
                    r is None && *final(self) == *old(self)
                } else if old(self).current_subpage > 0 {
                    &&& r is None
                    &&& final(self).current_page == old(self).current_page
                    &&& final(self).current_subpage == (if button == ButtonPos::Left {
                        old(self).current_subpage - 1
                    } else {
                        old(self).current_subpage + 1
                    })
                    &&& final(self).buttons == final(self).layout_spec()
                } else if button == ButtonPos::Left && old(self).current_page == 0 {
                    r == Some(()) && *final(self) == *old(self)
                } else if button == ButtonPos::Middle {
                    &&& r is None
                    &&& final(self).current_page == old(self).current_page
                    &&& final(self).current_subpage == 1
                    &&& final(self).buttons == final(self).layout_spec()
                } else {
                    &&& r is None
                    &&& final(self).current_page == (if button == ButtonPos::Left {
                        old(self).current_page - 1
                    } else {
                        old(self).current_page + 1
                    })
                    &&& final(self).current_subpage == 0
                    &&& final(self).current_page > 1 ==> final(self).xpub_screens == screens
                    &&& final(self).buttons == final(self).layout_spec()
                }
            }),
    {
        let layout = self.get_button_layout();
        let present = match button {
            ButtonPos::Left => layout.btn_left.is_some(),
            ButtonPos::Middle => layout.btn_middle.is_some(),
            ButtonPos::Right => layout.btn_right.is_some(),
        };
        if !present {
            return None;
        }
        if self.is_in_subpage() {
            match button {
                ButtonPos::Left => {
                    self.current_subpage = self.current_subpage - 1;
                },
                _ => {
                    self.current_subpage = self.current_subpage + 1;
                },
            }
            self.update_buttons();
            return None;
        }
        match button {
            ButtonPos::Left => {
                if self.current_page == 0 {
                    return Some(());
                }
                self.current_page = self.current_page - 1;
                self.change_page(screens);
            },
            ButtonPos::Right => {
                self.current_page = self.current_page + 1;
                self.change_page(screens);
            },
            ButtonPos::Middle => {
                self.current_subpage = 1;
            },
        }
        self.update_buttons();
        None
    }

    /// After the page changed: back to its first sub-page, and on an xpub
    /// page the screens its xpub takes.
    fn change_page(&mut self, screens: usize)
        requires
            screens >= 1,
        ensures
            *final(self) == (AddressDetails {
                current_subpage: 0,
                xpub_screens: if old(self).current_page > 1 {
                    screens
                } else {
                    old(self).xpub_screens
                },
                ..*old(self)
            }),
    {
        if self.is_xpub_page() {
            self.xpub_screens = screens;
        }
        self.current_subpage = 0;
    }
}

} // verus!
