//! PIN entry: the buffer of entered digits, how it is shown, and the
//! keypad around it.
use vstd::prelude::*;
use crate::geometry::Offset;

verus! {

/// Most digits a PIN may have.
pub const MAX_LENGTH: usize = 50;

/// Most digits (or dots) shown at once.
pub const MAX_SHOWN_LEN: usize = 16;

/// Keys of the keypad that enter a digit.
pub const DIGIT_COUNT: usize = 10;

/// Width of one dot.
pub const ICON_WIDTH: i16 = 6;

/// Space between two dots.
pub const ICON_SPACING: i16 = 6;

/// How far the dots shift on every other digit once they overflow, so the
/// user sees that a digit was entered.
pub const TWITCH: i16 = 4;

/// How the entered digits are shown.
#[derive(Debug, Clone, Copy, PartialEq, Eq, Structural)]
pub enum DisplayStyle {
    /// Digits in clear.
    Shown,
    /// A dot per digit.
    Hidden,
    /// Dots, and the last digit in clear.
    LastOnly,
}

/// One mark of the hidden PIN, drawn left to right with
/// `ICON_WIDTH + ICON_SPACING` between their starts.
#[derive(Debug, Clone, Copy, PartialEq, Eq, Structural)]
pub enum PinMark {
    /// A small dot: more digits were entered than can be shown.
    SmallDot,
    /// A grey dot standing for the digits that scrolled out.
    OverflowDot,
    /// A dot for one digit.
    Dot,
    /// The last digit in clear.
    Digit(char),
}

/// The digits entered so far and how they are shown.
pub struct PinInput {
    pub digits: String,
    pub display_style: DisplayStyle,
    /// Whether the timer that hides the last digit again is running.
    pub last_digit_timer: bool,
}

impl View for PinInput {
    type V = Seq<char>;

    open spec fn view(&self) -> Seq<char> {
        self.digits@
    }
}

pub open spec fn min_spec(a: int, b: int) -> int {
    if a < b {
        a
    } else {
        b
    }
}

/// Number of plain dots drawn for a hidden PIN of `len` digits.
pub open spec fn plain_dot_count(len: int, last_only: bool) -> int {
    let visible = min_spec(len, MAX_SHOWN_LEN as int) - (if last_only { 1int } else { 0int });
    let skipped = (if len > MAX_SHOWN_LEN + 1 { 1int } else { 0int }) + (if len > MAX_SHOWN_LEN {
        1int
    } else {
        0int
    });
    if visible > skipped {
        visible - skipped
    } else {
        0
    }
}

/// The marks of a hidden PIN `digits`: a small dot when more than one digit
/// scrolled out, a grey dot when any did, a dot for each remaining visible
/// digit, and in `LastOnly` style the last digit in clear instead of its dot.
pub open spec fn hidden_marks(digits: Seq<char>, last_only: bool) -> Seq<PinMark> {
    let len = digits.len() as int;
    if len == 0 {
        Seq::empty()
    } else {
        (if len > MAX_SHOWN_LEN + 1 { seq![PinMark::SmallDot] } else { Seq::empty() })
            + (if len > MAX_SHOWN_LEN { seq![PinMark::OverflowDot] } else { Seq::empty() })
            + Seq::new(plain_dot_count(len, last_only) as nat, |i: int| PinMark::Dot)
            + (if last_only { seq![PinMark::Digit(digits.last())] } else { Seq::empty() })
    }
}

impl PinInput {
    pub fn new() -> (r: PinInput)
        ensures
            r@ == Seq::<char>::empty(),
            r.display_style == DisplayStyle::Hidden,
            !r.last_digit_timer,
    {
        PinInput { digits: String::new(), display_style: DisplayStyle::Hidden, last_digit_timer: false }
    }

    /// Size of the row of dots of the hidden PIN.
    pub fn size(&self) -> (r: Offset)
        ensures
            ({
                let n = min_spec(self@.len() as int, MAX_SHOWN_LEN as int);
                &&& r.x == ICON_WIDTH * n + ICON_SPACING * (if n > 0 { n - 1 } else { 0 })
                &&& r.y == ICON_WIDTH
            }),
    {
        let len = self.digits.as_str().unicode_len();
        let ndots: usize = if len < MAX_SHOWN_LEN {
            len
        } else {
            MAX_SHOWN_LEN
        };
        let mut width: i16 = ICON_WIDTH * (ndots as i16);
        let gaps: i16 = if ndots > 0 {
            (ndots - 1) as i16
        } else {
            0
        };
        width = width + ICON_SPACING * gaps;
        Offset::new(width, ICON_WIDTH)
    }

    pub fn is_empty(&self) -> (r: bool)
        ensures
            r == (self@.len() == 0),
    {
        self.digits.as_str().unicode_len() == 0
    }

    pub fn is_full(&self) -> (r: bool)
        ensures
            r == (self@.len() >= MAX_LENGTH),
    {
        self.digits.as_str().unicode_len() >= MAX_LENGTH
    }

    pub fn clear(&mut self)
        ensures
            final(self)@ == Seq::<char>::empty(),
            final(self).display_style == old(self).display_style,
            final(self).last_digit_timer == old(self).last_digit_timer,
    {
        self.digits = String::new();
    }

    /// Appends `text`, unless the PIN would then be longer than
    /// `MAX_LENGTH`; then nothing changes.
    pub fn push(&mut self, text: &str)
        ensures
            final(self)@ == (if old(self)@.len() + text@.len() <= MAX_LENGTH {
                old(self)@ + text@
            } else {
                old(self)@
            }),
            final(self).display_style == old(self).display_style,
            final(self).last_digit_timer == old(self).last_digit_timer,
    {
        let len = self.digits.as_str().unicode_len();
        let add = text.unicode_len();
        if add <= MAX_LENGTH && len <= MAX_LENGTH - add {
            self.digits.append(text);
        }
    }

    /// Removes the last digit, if any.
    pub fn pop(&mut self)
        ensures
            final(self)@ == (if old(self)@.len() > 0 {
                old(self)@.drop_last()
            } else {
                old(self)@
            }),
            final(self).display_style == old(self).display_style,
            final(self).last_digit_timer == old(self).last_digit_timer,
    {
        let len = self.digits.as_str().unicode_len();
        if len > 0 {
            let shorter = self.digits.as_str().substring_char(0, len - 1).to_owned();
            self.digits = shorter;
        }
    }

    /// The digits entered.
    pub fn pin(&self) -> (r: &str)
        ensures
            r@ == self@,
    {
        self.digits.as_str()
    }

    /// What the PIN in clear shows: all of it centered when it fits, else its
    /// last `MAX_SHOWN_LEN` digits aligned to the right (the `bool`).
    pub fn render_shown(&self) -> (r: (&str, bool))
        ensures
            r.1 == (self@.len() > MAX_SHOWN_LEN),
            r.0@ == (if self@.len() > MAX_SHOWN_LEN {
                self@.skip(self@.len() - MAX_SHOWN_LEN)
            } else {
                self@
            }),
    {
        let s = self.digits.as_str();
        let len = s.unicode_len();
        if len <= MAX_SHOWN_LEN {
            (s, false)
        } else {
            (s.substring_char(len - MAX_SHOWN_LEN, len), true)
        }
    }

    /// The marks of the hidden PIN, and whether the row is shifted right by
    /// `TWITCH` (an odd number of digits, more than can be shown).
    pub fn render_hidden(&self) -> (r: (Vec<PinMark>, bool))
        requires
            self.display_style != DisplayStyle::Shown,
        ensures
            r.0@ == hidden_marks(self@, self.display_style == DisplayStyle::LastOnly),
            r.1 == (self@.len() > MAX_SHOWN_LEN && self@.len() % 2 == 1),
    {
        let s = self.digits.as_str();
        let pin_len = s.unicode_len();
        let last_digit = self.display_style == DisplayStyle::LastOnly;
        let mut marks: Vec<PinMark> = Vec::new();
        let twitch = pin_len > MAX_SHOWN_LEN && pin_len % 2 == 1;
        if pin_len == 0 {
            assert(marks@ =~= hidden_marks(self@, last_digit));
            return (marks, twitch);
        }
        let visible_len: usize = if pin_len < MAX_SHOWN_LEN {
            pin_len
        } else {
            MAX_SHOWN_LEN
        };
        let visible_icons: usize = if last_digit {
            visible_len - 1
        } else {
            visible_len
        };
        let mut char_idx: usize = 0;
        if pin_len > MAX_SHOWN_LEN + 1 {
            marks.push(PinMark::SmallDot);
            char_idx += 1;
        }
        if pin_len > MAX_SHOWN_LEN {
            marks.push(PinMark::OverflowDot);
            char_idx += 1;
        }
        let ghost head = marks@;
        let ghost dots = plain_dot_count(pin_len as int, last_digit);
        let mut i = char_idx;
        while i < visible_icons
            invariant
                char_idx <= 2,
                visible_icons <= MAX_SHOWN_LEN,
                dots == (if visible_icons > char_idx { visible_icons - char_idx } else { 0 }),
                char_idx <= i,
                i <= visible_icons || i == char_idx,
                marks@ == head + Seq::new((i - char_idx) as nat, |j: int| PinMark::Dot),
            decreases visible_icons - i,
        {
            marks.push(PinMark::Dot);
            proof {
                assert(marks@ =~= head + Seq::new((i + 1 - char_idx) as nat, |j: int| PinMark::Dot));
            }
            i += 1;
        }
        assert(marks@ =~= head + Seq::new(dots as nat, |j: int| PinMark::Dot));
        if last_digit {
            let last = s.get_char(pin_len - 1);
            marks.push(PinMark::Digit(last));
        }
        assert(marks@ =~= hidden_marks(self@, last_digit));
        (marks, twitch)
    }
}


impl PinInput {
    /// The field's own reaction: a touch inside shows the digits, the end of
    /// a touch hides them, and the last-digit timer hides the last digit.
    pub fn event(&mut self, event: PinEvent)
        ensures
            final(self)@ == old(self)@,
            final(self).display_style == (match event {
                PinEvent::TouchStart(true) => DisplayStyle::Shown,
                PinEvent::TouchEnd => DisplayStyle::Hidden,
                PinEvent::LastDigitTimerExpired => if old(self).last_digit_timer {
                    DisplayStyle::Hidden
                } else {
                    old(self).display_style
                },
                _ => old(self).display_style,
            }),
            final(self).last_digit_timer == (match event {
                PinEvent::TouchStart(true) | PinEvent::LastDigitTimerExpired => false,
                _ => old(self).last_digit_timer,
            }),
    {
        match event {
            PinEvent::TouchStart(true) => {
                self.last_digit_timer = false;
                self.display_style = DisplayStyle::Shown;
            },
            PinEvent::TouchEnd => {
                self.display_style = DisplayStyle::Hidden;
            },
            PinEvent::LastDigitTimerExpired => {
                if self.last_digit_timer {
                    self.display_style = DisplayStyle::Hidden;
                }
                self.last_digit_timer = false;
            },
            _ => {},
        }
    }
}

/// What the keypad reports to its owner.
#[derive(Debug, Clone, Copy, PartialEq, Eq, Structural)]
pub enum PinKeyboardMsg {
    Confirmed,
    Cancelled,
}

/// The parts of the keypad, in the order they are drawn.
#[derive(Debug, Clone, Copy, PartialEq, Eq, Structural)]
pub enum PinPart {
    EraseButton,
    MajorWarning,
    MajorPrompt,
    MinorPrompt,
    CancelButton,
    PinField,
    ConfirmButton,
    DigitKeys,
}

/// Whether a button is drawn, and whether it reacts to presses.
#[derive(Debug, Clone, Copy, PartialEq, Eq, Structural)]
pub struct ButtonState {
    pub visible: bool,
    pub enabled: bool,
}

/// What happens to the keypad.
#[derive(Debug, Clone, Copy, PartialEq, Eq, Structural)]
pub enum PinEvent {
    /// The keypad appeared on screen.
    Attach,
    /// The timer that shows the warning ran out.
    WarningTimerExpired,
    /// The timer that shows the last digit ran out.
    LastDigitTimerExpired,
    /// A touch began; `true` when inside the PIN field.
    TouchStart(bool),
    /// A touch ended.
    TouchEnd,
    /// The confirm button was clicked.
    ConfirmClicked,
    /// The cancel button was clicked.
    CancelClicked,
    /// The erase button was clicked.
    EraseClicked,
    /// The erase button was held down.
    EraseLongPressed,
    /// The digit key at this position was clicked.
    DigitClicked(usize),
}

/// A keypad of shuffled digit keys with erase, cancel and confirm buttons
/// around a PIN field, under a prompt (or a warning that the first touch
/// of the timer replaces).
pub struct PinKeyboard {
    pub allow_cancel: bool,
    pub major_prompt: String,
    pub minor_prompt: String,
    pub major_warning: Option<String>,
    pub textbox: PinInput,
    pub erase_btn: ButtonState,
    pub cancel_btn: ButtonState,
    pub confirm_btn: ButtonState,
    /// Whether the digit keys react.
    pub digits_enabled: bool,
    /// The digit on each key, in key order.
    pub digit_keys: [char; DIGIT_COUNT],
    /// Whether the warning's timer runs.
    pub warning_timer: bool,
}

/// The character of digit `d`.
pub open spec fn digit_char(d: u8) -> char {
    (48 + d) as char
}


/// Whether `c` is one of the ten decimal digits.
pub open spec fn is_digit(c: char) -> bool {
    48 <= (c as u32) <= 57
}

/// The one-character string of digit `d`.
fn digit_str(d: char) -> (r: &'static str)
    requires
        is_digit(d),
    ensures
        r@ == seq![d],
{
    if d == '0' {
        proof {
            reveal_strlit("0");
        }
        "0"
    } else if d == '1' {
        proof {
            reveal_strlit("1");
        }
        "1"
    } else if d == '2' {
        proof {
            reveal_strlit("2");
        }
        "2"
    } else if d == '3' {
        proof {
            reveal_strlit("3");
        }
        "3"
    } else if d == '4' {
        proof {
            reveal_strlit("4");
        }
        "4"
    } else if d == '5' {
        proof {
            reveal_strlit("5");
        }
        "5"
    } else if d == '6' {
        proof {
            reveal_strlit("6");
        }
        "6"
    } else if d == '7' {
        proof {
            reveal_strlit("7");
        }
        "7"
    } else if d == '8' {
        proof {
            reveal_strlit("8");
        }
        "8"
    } else if d == '9' {
        proof {
            reveal_strlit("9");
        }
        "9"
    } else {
        proof {
            assert(false);
        }
        "0"
    }
}

impl PinKeyboard {
    /// Every key carries a digit.
    pub open spec fn keys_are_digits(&self) -> bool {
        forall|i: int| 0 <= i < DIGIT_COUNT ==> is_digit(#[trigger] self.digit_keys@[i])
    }

    /// The buttons agree with the PIN entered: digit keys only while it is not
    /// full, erase and confirm only when it is not empty, cancel only when it
    /// is empty.
    pub open spec fn buttons_follow_pin(&self) -> bool {
        let empty = self.textbox@.len() == 0;
        let full = self.textbox@.len() >= MAX_LENGTH;
        &&& self.digits_enabled == !full
        &&& self.erase_btn == ButtonState { visible: !empty, enabled: !empty }
        &&& self.cancel_btn == ButtonState { visible: empty && self.allow_cancel, enabled: empty }
        &&& self.confirm_btn == ButtonState { visible: true, enabled: !empty }
    }

    /// A keypad with its keys in the order `order` gives: key `i` enters the
    /// digit `order[i]`.
    pub fn new(
        major_prompt: String,
        minor_prompt: String,
        major_warning: Option<String>,
        allow_cancel: bool,
        order: [u8; DIGIT_COUNT],
    ) -> (r: PinKeyboard)
        requires
            forall|i: int| 0 <= i < DIGIT_COUNT ==> order@[i] < 10,
        ensures
            r.textbox@ == Seq::<char>::empty(),
            r.textbox.display_style == DisplayStyle::Hidden,
            r.allow_cancel == allow_cancel,
            r.major_prompt@ == major_prompt@,
            r.minor_prompt@ == minor_prompt@,
            r.major_warning == major_warning,
            r.erase_btn == (ButtonState { visible: false, enabled: false }),
            r.cancel_btn == (ButtonState { visible: allow_cancel, enabled: true }),
            r.confirm_btn == (ButtonState { visible: true, enabled: false }),
            r.digits_enabled,
            forall|i: int| 0 <= i < DIGIT_COUNT ==> r.digit_keys@[i] == digit_char(#[trigger] order@[i]),
            !r.warning_timer,
            r.keys_are_digits(),
    {
        PinKeyboard {
            allow_cancel,
            major_prompt,
            minor_prompt,
            major_warning,
            textbox: PinInput::new(),
            erase_btn: ButtonState { visible: false, enabled: false },
            cancel_btn: ButtonState { visible: allow_cancel, enabled: true },
            confirm_btn: ButtonState { visible: true, enabled: false },
            digits_enabled: true,
            digit_keys: Self::generate_digit_buttons(order),
            warning_timer: false,
        }
    }

    /// The digits of the keys, key `i` showing digit `order[i]`.
    pub fn generate_digit_buttons(order: [u8; DIGIT_COUNT]) -> (r: [char; DIGIT_COUNT])
        requires
            forall|i: int| 0 <= i < DIGIT_COUNT ==> order@[i] < 10,
        ensures
            forall|i: int| 0 <= i < DIGIT_COUNT ==> r@[i] == digit_char(#[trigger] order@[i]),
            forall|i: int| 0 <= i < DIGIT_COUNT ==> is_digit(#[trigger] r@[i]),
    {
        let mut keys: [char; DIGIT_COUNT] = ['0'; DIGIT_COUNT];
        let mut i: usize = 0;
        while i < DIGIT_COUNT
            invariant
                i <= DIGIT_COUNT,
                forall|j: int| 0 <= j < DIGIT_COUNT ==> order@[j] < 10,
                forall|j: int| 0 <= j < i ==> keys@[j] == digit_char(#[trigger] order@[j]),
                forall|j: int| 0 <= j < i ==> is_digit(#[trigger] keys@[j]),
            decreases DIGIT_COUNT - i,
        {
            let d = order[i];
            keys[i] = ((48u8 + d) as char);
            i += 1;
        }
        keys
    }

    /// Brings the buttons in line with the PIN after it changed.
    pub fn pin_modified(&mut self)
        ensures
            final(self).buttons_follow_pin(),
            final(self).textbox == old(self).textbox,
            final(self).allow_cancel == old(self).allow_cancel,
            final(self).major_prompt == old(self).major_prompt,
            final(self).minor_prompt == old(self).minor_prompt,
            final(self).major_warning == old(self).major_warning,
            final(self).digit_keys == old(self).digit_keys,
            final(self).warning_timer == old(self).warning_timer,
    {
        let is_full = self.textbox.is_full();
        let is_empty = self.textbox.is_empty();
        self.digits_enabled = !is_full;
        self.erase_btn = ButtonState { visible: !is_empty, enabled: !is_empty };
        self.cancel_btn = ButtonState { visible: is_empty && self.allow_cancel, enabled: is_empty };
        self.confirm_btn = ButtonState { visible: true, enabled: !is_empty };
    }

    /// The PIN entered.
    pub fn pin(&self) -> (r: &str)
        ensures
            r@ == self.textbox@,
    {
        self.textbox.pin()
    }

    /// Handles one event: reports `Confirmed` or `Cancelled` when the
    /// corresponding button takes a click, edits the PIN on erase and digit
    /// keys that react, and switches how the PIN is shown.
    pub fn event(&mut self, event: PinEvent) -> (r: Option<PinKeyboardMsg>)
        requires
            old(self).keys_are_digits(),
        ensures
            final(self).allow_cancel == old(self).allow_cancel,
            final(self).digit_keys == old(self).digit_keys,
            r == (match event {
                PinEvent::ConfirmClicked => if old(self).confirm_btn.enabled {
                    Some(PinKeyboardMsg::Confirmed)
                } else {
                    None
                },
                PinEvent::CancelClicked => if old(self).cancel_btn.visible && old(self).cancel_btn.enabled {
                    Some(PinKeyboardMsg::Cancelled)
                } else {
                    None
                },
                _ => None,
            }),
            final(self).textbox@ == (match event {
                PinEvent::EraseClicked => if old(self).erase_btn.visible && old(self).erase_btn.enabled
                    && old(self).textbox@.len() > 0 {
                    old(self).textbox@.drop_last()
                } else {
                    old(self).textbox@
                },
                PinEvent::EraseLongPressed => if old(self).erase_btn.visible
                    && old(self).erase_btn.enabled {
                    Seq::<char>::empty()
                } else {
                    old(self).textbox@
                },
                PinEvent::DigitClicked(i) => if i < DIGIT_COUNT && old(self).digits_enabled
                    && old(self).textbox@.len() < MAX_LENGTH {
                    old(self).textbox@.push(old(self).digit_keys@[i as int])
                } else {
                    old(self).textbox@
                },
                _ => old(self).textbox@,
            }),
            final(self).textbox.display_style == (match event {
                PinEvent::TouchStart(true) => DisplayStyle::Shown,
                PinEvent::TouchEnd => DisplayStyle::Hidden,
                PinEvent::LastDigitTimerExpired => if old(self).textbox.last_digit_timer {
                    DisplayStyle::Hidden
                } else {
                    old(self).textbox.display_style
                },
                PinEvent::DigitClicked(i) => if i < DIGIT_COUNT && old(self).digits_enabled {
                    DisplayStyle::LastOnly
                } else {
                    old(self).textbox.display_style
                },
                _ => old(self).textbox.display_style,
            }),
            final(self).major_warning == (match event {
                PinEvent::WarningTimerExpired => if old(self).warning_timer {
                    None
                } else {
                    old(self).major_warning
                },
                _ => old(self).major_warning,
            }),
            final(self).warning_timer == (match event {
                PinEvent::Attach => old(self).warning_timer || old(self).major_warning is Some,
                PinEvent::WarningTimerExpired => false,
                _ => old(self).warning_timer,
            }),
            ({
                let edited = match event {
                    PinEvent::EraseClicked | PinEvent::EraseLongPressed => old(self).erase_btn.visible
                        && old(self).erase_btn.enabled,
                    PinEvent::DigitClicked(i) => i < DIGIT_COUNT && old(self).digits_enabled,
                    _ => false,
                };
                if edited {
                    final(self).buttons_follow_pin()
                } else {
                    &&& final(self).erase_btn == old(self).erase_btn
                    &&& final(self).cancel_btn == old(self).cancel_btn
                    &&& final(self).confirm_btn == old(self).confirm_btn
                    &&& final(self).digits_enabled == old(self).digits_enabled
                }
            }),
    {
        match event {
            PinEvent::Attach => {
                if self.major_warning.is_some() {
                    self.warning_timer = true;
                }
                None
            },
            PinEvent::WarningTimerExpired => {
                if self.warning_timer {
                    self.major_warning = None;
                }
                self.warning_timer = false;
                None
            },
            PinEvent::LastDigitTimerExpired | PinEvent::TouchStart(_) | PinEvent::TouchEnd => {
                self.textbox.event(event);
                None
            },
            PinEvent::ConfirmClicked => {
                if self.confirm_btn.enabled {
                    Some(PinKeyboardMsg::Confirmed)
                } else {
                    None
                }
            },
            PinEvent::CancelClicked => {
                if self.cancel_btn.visible && self.cancel_btn.enabled {
                    Some(PinKeyboardMsg::Cancelled)
                } else {
                    None
                }
            },
            PinEvent::EraseClicked => {
                if self.erase_btn.visible && self.erase_btn.enabled {
                    self.textbox.pop();
                    self.pin_modified();
                }
                None
            },
            PinEvent::EraseLongPressed => {
                if self.erase_btn.visible && self.erase_btn.enabled {
                    self.textbox.clear();
                    self.pin_modified();
                }
                None
            },
            PinEvent::DigitClicked(i) => {
                if i < DIGIT_COUNT && self.digits_enabled {
                    let key = self.digit_keys[i];
                    self.textbox.push(digit_str(key));
                    self.pin_modified();
                    self.textbox.last_digit_timer = true;
                    self.textbox.display_style = DisplayStyle::LastOnly;
                }
                None
            },
        }
    }
}

impl PinKeyboard {
    /// What the keypad draws, in order: the erase button when shown; with no
    /// PIN entered the warning (or else the prompt), the minor prompt and the
    /// cancel button when shown, otherwise the PIN field; then confirm and
    /// the digit keys.
    pub open spec fn parts_spec(&self) -> Seq<PinPart> {
        let erase = if self.erase_btn.visible { seq![PinPart::EraseButton] } else { Seq::empty() };
        let middle = if self.textbox@.len() == 0 {
            seq![if self.major_warning is Some { PinPart::MajorWarning } else { PinPart::MajorPrompt }, PinPart::MinorPrompt]
                + if self.cancel_btn.visible { seq![PinPart::CancelButton] } else { Seq::empty() }
        } else {
            seq![PinPart::PinField]
        };
        erase + middle + seq![PinPart::ConfirmButton, PinPart::DigitKeys]
    }

    pub fn render(&self) -> (r: Vec<PinPart>)
        ensures
            r@ == self.parts_spec(),
    {
        let mut parts: Vec<PinPart> = Vec::new();
        if self.erase_btn.visible {
            parts.push(PinPart::EraseButton);
        }
        if self.textbox.is_empty() {
            if self.major_warning.is_some() {
                parts.push(PinPart::MajorWarning);
            } else {
                parts.push(PinPart::MajorPrompt);
            }
            parts.push(PinPart::MinorPrompt);
            if self.cancel_btn.visible {
                parts.push(PinPart::CancelButton);
            }
        } else {
            parts.push(PinPart::PinField);
        }
        parts.push(PinPart::ConfirmButton);
        parts.push(PinPart::DigitKeys);
        assert(parts@ =~= self.parts_spec());
        parts
    }
}

} // verus!
