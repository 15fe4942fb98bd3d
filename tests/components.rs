use trezor_ui::address_details::{AddressDetails, Error, MAX_XPUBS};
use trezor_ui::flow::{AttachType, Decision, Direction, FlowMsg, PromptBackup, ShowShareWords};
use trezor_ui::flow_pages::{
    ButtonAction, ButtonActions, ButtonDetails, ButtonLayout, FlowPages, Page,
};
use trezor_ui::fuel_gauge::{
    Alignment, BatteryIcon, ChargingState, FuelGauge, FuelGaugeEvent, FuelGaugeMode, IndicatorColor,
};
use trezor_ui::geometry::{Insets, Offset, Rect};
use trezor_ui::menu::{
    MenuEvent, MenuIcon, MenuStyle, PagedVerticalMenu, ScrolledVerticalMenu, VerticalMenuChoiceMsg,
    VerticalMenuItem,
};
use trezor_ui::page::{
    ButtonContent, ButtonMsg, ButtonPage, ButtonStyleSheet, HandleResult, Icon, LoaderState,
    PageButtonId, PageEvent, PageLayout, PageMsg, SwipeDirection,
};
use trezor_ui::pager::Pager;
use trezor_ui::pin::{
    DisplayStyle, PinEvent, PinInput, PinKeyboard, PinKeyboardMsg, PinMark, PinPart, MAX_LENGTH,
};
use trezor_ui::set_brightness::{BrightnessAction, CancelConfirmMsg, SetBrightnessDialog, SliderMsg};
use trezor_ui::subpaged_address_details::{AddressDetails as SubpagedDetails, ButtonPos};
use trezor_ui::theme::get_chunkified_text_style;

#[test]
fn pin_input_push_pop_clear() {
    let mut pin = PinInput::new();
    assert!(pin.is_empty());
    pin.push("12");
    pin.push("3");
    assert_eq!(pin.pin(), "123");
    pin.pop();
    assert_eq!(pin.pin(), "12");
    pin.clear();
    assert!(pin.is_empty());
    pin.pop();
    assert_eq!(pin.pin(), "");
}

#[test]
fn pin_input_refuses_past_max_length() {
    let mut pin = PinInput::new();
    for _ in 0..MAX_LENGTH {
        pin.push("7");
    }
    assert!(pin.is_full());
    pin.push("8");
    assert_eq!(pin.pin().len(), MAX_LENGTH);
    assert!(!pin.pin().contains('8'));
}

#[test]
fn pin_input_size_of_dots() {
    let mut pin = PinInput::new();
    assert_eq!(pin.size(), Offset::new(0, 6));
    pin.push("1");
    assert_eq!(pin.size(), Offset::new(6, 6));
    pin.push("234");
    assert_eq!(pin.size(), Offset::new(4 * 6 + 3 * 6, 6));
    for _ in 0..20 {
        pin.push("5");
    }
    assert_eq!(pin.size(), Offset::new(16 * 6 + 15 * 6, 6));
}

#[test]
fn pin_shown_and_hidden() {
    let mut pin = PinInput::new();
    pin.push("12345");
    assert_eq!(pin.render_shown(), ("12345", false));
    let (marks, twitch) = pin.render_hidden();
    assert_eq!(marks, vec![PinMark::Dot; 5]);
    assert!(!twitch);
    pin.display_style = DisplayStyle::LastOnly;
    let (marks, _) = pin.render_hidden();
    assert_eq!(marks, vec![PinMark::Dot, PinMark::Dot, PinMark::Dot, PinMark::Dot, PinMark::Digit('5')]);
    pin.push("6789012345678");
    // 18 digits: two scrolled-out marks, then the rest of the 16 visible.
    assert_eq!(pin.render_shown(), ("3456789012345678", true));
    pin.display_style = DisplayStyle::Hidden;
    let (marks, twitch) = pin.render_hidden();
    assert_eq!(marks.len(), 16);
    assert_eq!(marks[0], PinMark::SmallDot);
    assert_eq!(marks[1], PinMark::OverflowDot);
    assert!(marks[2..].iter().all(|m| *m == PinMark::Dot));
    assert!(!twitch);
    pin.push("9");
    assert!(pin.render_hidden().1);
}

fn keyboard(allow_cancel: bool) -> PinKeyboard {
    PinKeyboard::new(
        String::from("Enter PIN"),
        String::from(""),
        Some(String::from("Wrong PIN")),
        allow_cancel,
        [3, 1, 4, 0, 5, 9, 2, 6, 8, 7],
    )
}

#[test]
fn pin_keyboard_keys_follow_order() {
    let kb = keyboard(true);
    assert_eq!(kb.digit_keys, ['3', '1', '4', '0', '5', '9', '2', '6', '8', '7']);
    assert_eq!(PinKeyboard::generate_digit_buttons([0, 1, 2, 3, 4, 5, 6, 7, 8, 9])[9], '9');
}

#[test]
fn pin_keyboard_entering_and_confirming() {
    let mut kb = keyboard(true);
    assert_eq!(kb.event(PinEvent::ConfirmClicked), None);
    assert_eq!(kb.event(PinEvent::DigitClicked(0)), None);
    assert_eq!(kb.event(PinEvent::DigitClicked(2)), None);
    assert_eq!(kb.pin(), "34");
    assert_eq!(kb.textbox.display_style, DisplayStyle::LastOnly);
    assert!(kb.erase_btn.visible && kb.erase_btn.enabled);
    assert!(!kb.cancel_btn.visible);
    assert_eq!(kb.event(PinEvent::CancelClicked), None);
    assert_eq!(kb.event(PinEvent::LastDigitTimerExpired), None);
    assert_eq!(kb.textbox.display_style, DisplayStyle::Hidden);
    assert_eq!(kb.event(PinEvent::TouchStart(true)), None);
    assert_eq!(kb.textbox.display_style, DisplayStyle::Shown);
    assert_eq!(kb.event(PinEvent::TouchEnd), None);
    assert_eq!(kb.event(PinEvent::DigitClicked(10)), None);
    assert_eq!(kb.pin(), "34");
    assert_eq!(kb.event(PinEvent::ConfirmClicked), Some(PinKeyboardMsg::Confirmed));
}

#[test]
fn pin_keyboard_erasing_and_cancelling() {
    let mut kb = keyboard(true);
    kb.event(PinEvent::DigitClicked(1));
    kb.event(PinEvent::DigitClicked(1));
    kb.event(PinEvent::EraseClicked);
    assert_eq!(kb.pin(), "1");
    kb.event(PinEvent::DigitClicked(4));
    kb.event(PinEvent::EraseLongPressed);
    assert_eq!(kb.pin(), "");
    assert!(!kb.erase_btn.visible);
    assert!(kb.cancel_btn.visible);
    assert_eq!(kb.event(PinEvent::CancelClicked), Some(PinKeyboardMsg::Cancelled));
    let mut no_cancel = keyboard(false);
    assert_eq!(no_cancel.event(PinEvent::CancelClicked), None);
}

#[test]
fn pin_keyboard_full_pin_disables_digits() {
    let mut kb = keyboard(false);
    for _ in 0..MAX_LENGTH {
        kb.event(PinEvent::DigitClicked(3));
    }
    assert!(!kb.digits_enabled);
    kb.event(PinEvent::DigitClicked(3));
    assert_eq!(kb.pin().len(), MAX_LENGTH);
}

#[test]
fn pin_keyboard_warning_timer() {
    let mut kb = keyboard(false);
    kb.event(PinEvent::WarningTimerExpired);
    assert!(kb.major_warning.is_some());
    kb.event(PinEvent::Attach);
    assert!(kb.warning_timer);
    kb.event(PinEvent::WarningTimerExpired);
    assert!(kb.major_warning.is_none());
    assert!(!kb.warning_timer);
}

#[test]
fn prompt_backup_flow() {
    assert_eq!(PromptBackup::SkipBackupConfirm.index(), 3);
    assert_eq!(PromptBackup::Intro.handle_swipe(Direction::Up), Decision::Return(FlowMsg::Confirmed));
    assert_eq!(PromptBackup::Intro.handle_swipe(Direction::Down), Decision::Nothing);
    assert_eq!(
        PromptBackup::Intro.handle_event(FlowMsg::Info),
        Decision::Transition(PromptBackup::Menu, AttachType::Initial)
    );
    assert_eq!(
        PromptBackup::Menu.handle_event(FlowMsg::Choice(0)),
        Decision::Transition(PromptBackup::SkipBackupIntro, AttachType::Swipe(Direction::Left))
    );
    assert_eq!(PromptBackup::Menu.handle_event(FlowMsg::Choice(1)), Decision::Nothing);
    assert_eq!(
        PromptBackup::SkipBackupConfirm.handle_event(FlowMsg::Confirmed),
        Decision::Return(FlowMsg::Cancelled)
    );
}

#[test]
fn show_share_words_flow() {
    assert_eq!(ShowShareWords::Words.index(), 1);
    assert_eq!(
        ShowShareWords::Words.handle_swipe(Direction::Down),
        Decision::Transition(ShowShareWords::Instruction, AttachType::Swipe(Direction::Down))
    );
    assert_eq!(
        ShowShareWords::CheckBackupIntro.handle_swipe(Direction::Up),
        Decision::Return(FlowMsg::Confirmed)
    );
    assert_eq!(
        ShowShareWords::Confirm.handle_event(FlowMsg::Confirmed),
        Decision::Transition(ShowShareWords::CheckBackupIntro, AttachType::Swipe(Direction::Up))
    );
    assert_eq!(ShowShareWords::Instruction.handle_event(FlowMsg::Confirmed), Decision::Nothing);
}

#[test]
fn fuel_gauge_indication() {
    let g = FuelGauge::always();
    assert!(g.should_be_shown());
    assert_eq!(
        g.battery_indication(ChargingState::Charging, 5),
        (BatteryIcon::Zap, IndicatorColor::Yellow, IndicatorColor::GreyLight)
    );
    assert_eq!(g.battery_indication(ChargingState::Idle, 81).0, BatteryIcon::Full);
    assert_eq!(g.battery_indication(ChargingState::Idle, 80).0, BatteryIcon::Mid);
    assert_eq!(g.battery_indication(ChargingState::Discharging, 26).0, BatteryIcon::Mid);
    assert_eq!(
        g.battery_indication(ChargingState::Discharging, 10),
        (BatteryIcon::Low, IndicatorColor::Yellow, IndicatorColor::GreyLight)
    );
    assert_eq!(
        g.battery_indication(ChargingState::Discharging, 9),
        (BatteryIcon::Empty, IndicatorColor::Red, IndicatorColor::Red)
    );
}

#[test]
fn fuel_gauge_modes_and_events() {
    let mut g = FuelGauge::on_charging_change_or_attach().with_alignment(Alignment::End);
    assert_eq!(g.alignment, Alignment::End);
    assert!(!g.should_be_shown());
    g.event(FuelGaugeEvent::Attach(true), (55, ChargingState::Discharging));
    assert_eq!(g.soc, Some(55));
    assert!(g.should_be_shown());
    g.event(FuelGaugeEvent::TimerExpired, (0, ChargingState::Idle));
    assert!(!g.should_be_shown());
    assert_eq!(g.soc, Some(55));
    let mut c = FuelGauge::on_charging_change();
    c.event(FuelGaugeEvent::PowerChange(false), (40, ChargingState::Idle));
    assert!(!c.should_be_shown());
    c.event(FuelGaugeEvent::PowerChange(true), (41, ChargingState::Charging));
    assert_eq!(c.mode, FuelGaugeMode::OnChargingChange(true));
    assert_eq!(c.charging_state, ChargingState::Charging);
    c.update_pm_state(90, ChargingState::Idle);
    assert_eq!(c.soc, Some(90));
    let area = Rect::new(0, 0, 100, 20);
    assert_eq!(c.place(area), area);
}

#[test]
fn rect_splitting() {
    let r = Rect::new(0, 0, 240, 240);
    assert_eq!(r.split_bottom(50), (Rect::new(0, 0, 240, 190), Rect::new(0, 190, 240, 240)));
    assert_eq!(r.split_left(300).0, r);
    assert_eq!(r.split_right(13), (Rect::new(0, 0, 227, 240), Rect::new(227, 0, 240, 240)));
    assert_eq!(r.inset(Insets::new(1, 2, 3, 4)), Rect::new(4, 1, 238, 237));
}

#[test]
fn page_layout_of_screen() {
    let layout = PageLayout::new(Rect::new(6, 6, 234, 234), true);
    assert_eq!(layout.button_both, Rect::new(6, 184, 234, 234));
    assert_eq!(layout.content_single_page, Rect::new(6, 6, 234, 178));
    assert_eq!(layout.content, Rect::new(6, 6, 221, 178));
    assert_eq!(layout.scrollbar, Rect::new(226, 6, 234, 178));
    assert_eq!(layout.button_left, Rect::new(6, 184, 62, 234));
    assert_eq!(layout.button_right, Rect::new(68, 184, 234, 234));
    let wide = PageLayout::new(Rect::new(6, 6, 234, 234), false);
    assert_eq!(wide.button_left, Rect::new(6, 184, 117, 234));
    assert_eq!(ButtonPage::loader_area(), Rect::new(6, 6, 234, 178));
}

#[test]
fn button_page_turns_pages() {
    let mut page = ButtonPage::new(3, 0);
    let (_, wide) = page.place(Rect::new(6, 6, 234, 234), 2, 3);
    assert!(!wide);
    assert_eq!(page.pager, Pager { current: 0, total: 3 });
    assert!(page.is_cancel_visible());
    assert_eq!(page.handle_swipe(SwipeDirection::Up), HandleResult::NextPage);
    assert_eq!(page.handle_swipe(SwipeDirection::Down), HandleResult::Continue);
    let ev = |swipe, button| PageEvent { swipe, button, loader_shrunk: false, loader_grown: false };
    assert_eq!(page.event(ev(Some(SwipeDirection::Up), None)), None);
    assert_eq!(page.pager.current, 1);
    assert!(page.button_prev.enabled);
    assert!(!page.is_cancel_visible());
    assert_eq!(page.event(ev(None, Some((PageButtonId::Cancel, ButtonMsg::Clicked)))), None);
    assert_eq!(page.event(ev(None, Some((PageButtonId::Next, ButtonMsg::Clicked)))), None);
    assert_eq!(page.pager.current, 2);
    assert_eq!(page.event(ev(None, Some((PageButtonId::Next, ButtonMsg::Clicked)))), None);
    assert_eq!(page.pager.current, 2);
    assert_eq!(
        page.event(ev(None, Some((PageButtonId::Confirm, ButtonMsg::Clicked)))),
        Some(PageMsg::Confirmed)
    );
    page.change_page(-5);
    assert_eq!(page.pager.current, 0);
    assert_eq!(
        page.event(ev(None, Some((PageButtonId::Cancel, ButtonMsg::Clicked)))),
        Some(PageMsg::Cancelled)
    );
}

#[test]
fn button_page_builders() {
    let page = ButtonPage::new(1, 0).with_cancel_button(Some("^"));
    assert!(matches!(page.button_cancel.unwrap().content, ButtonContent::Icon(Icon::Up)));
    let page = page.with_cancel_button(Some("<"));
    assert!(matches!(page.button_cancel.unwrap().content, ButtonContent::Icon(Icon::Back)));
    let page = page.with_cancel_confirm(Some("No"), Some("Yes"));
    assert!(matches!(page.button_cancel.unwrap().content, ButtonContent::Text("No")));
    assert!(matches!(page.button_confirm.content, ButtonContent::Text("Yes")));
    assert!(page.small_left_button());
    let page = page.with_cancel_button(Some("Cancel"));
    assert!(page.small_left_button() == false);
    let page = page.with_confirm_style(ButtonStyleSheet::Danger);
    assert_eq!(page.button_confirm.style, ButtonStyleSheet::Danger);
    let page = page.with_back_button();
    assert!(page.cancel_from_any_page);
    let page = page.without_cancel();
    assert!(page.button_cancel.is_none());
    assert!(page.small_left_button());
    let mut single = ButtonPage::new(1, 0).without_cancel();
    let (_, wide) = single.place(Rect::new(0, 0, 240, 240), 1, 1);
    assert!(wide);
}

#[test]
fn button_page_hold_to_confirm() {
    let mut page = ButtonPage::new(1, 0).with_hold("Hold");
    assert_eq!(page.loader, Some(LoaderState::Initial));
    assert!(!page.button_confirm.haptics);
    let ev = |msg, grown| PageEvent {
        swipe: None,
        button: Some((PageButtonId::Confirm, msg)),
        loader_shrunk: false,
        loader_grown: grown,
    };
    assert_eq!(page.event(ev(ButtonMsg::Pressed, false)), None);
    assert_eq!(page.loader, Some(LoaderState::Growing));
    assert_eq!(page.event(ev(ButtonMsg::Clicked, false)), None);
    assert_eq!(page.loader, Some(LoaderState::Shrinking));
    assert_eq!(page.event(ev(ButtonMsg::Clicked, true)), Some(PageMsg::Confirmed));
}

fn flow_page(total: u16) -> Page {
    let layout = ButtonLayout {
        btn_left: Some(ButtonDetails::Text("Back")),
        btn_middle: Some(ButtonDetails::Text("Info")),
        btn_right: Some(ButtonDetails::Text("Next")),
    };
    let actions = ButtonActions {
        left: ButtonAction::PrevPage,
        middle: ButtonAction::Info,
        right: ButtonAction::NextPage,
    };
    Page::new(layout, actions, Pager { current: 0, total })
}

#[test]
fn flow_page_arrows() {
    let mut page = flow_page(3);
    let l = page.btn_layout();
    assert!(matches!(l.btn_left, Some(ButtonDetails::Text("Back"))));
    assert!(l.btn_middle.is_none());
    assert!(matches!(l.btn_right, Some(ButtonDetails::DownArrowIconWide)));
    page.change_page(1);
    let l = page.btn_layout();
    assert!(matches!(l.btn_left, Some(ButtonDetails::UpArrowIconWide)));
    page.change_page(2);
    let l = page.btn_layout();
    assert!(matches!(l.btn_left, Some(ButtonDetails::UpArrowIcon)));
    assert!(matches!(l.btn_right, Some(ButtonDetails::Text("Next"))));
    let slim = page.with_slim_arrows().with_title("Title");
    assert!(matches!(slim.btn_layout().btn_left, Some(ButtonDetails::LeftArrowIcon)));
    assert_eq!(slim.title(), Some("Title"));
    assert_eq!(slim.btn_actions().middle, ButtonAction::Info);
}

#[test]
fn flow_pages_scrollbar_positions() {
    let pages = FlowPages::new(vec![flow_page(2), flow_page(1), flow_page(4)]);
    assert_eq!(pages.count(), 3);
    assert_eq!(pages.scrollbar_page_index(0), 0);
    assert_eq!(pages.scrollbar_page_index(2), 3);
    assert_eq!(pages.scrollbar_page_count(), 7);
    assert_eq!(pages.get(2).pager.total, 4);
}

fn details_with(n: usize) -> AddressDetails {
    let mut d = AddressDetails::new(
        String::from("Receive"),
        String::from("bc1qaddress"),
        false,
        String::from("Details"),
        Some(String::from("#1")),
        None,
    );
    for i in 0..n {
        d.add_xpub(format!("XPUB #{}", i), format!("xpub{}", i)).unwrap();
    }
    d
}

#[test]
fn address_details_pages_of_xpubs() {
    let mut d = details_with(3);
    d.place(&[2, 1, 3]);
    assert_eq!(d.total_pages(), 8);
    assert_eq!(d.pager(), Pager { current: 0, total: 8 });
    assert_eq!(d.lookup(0), (0, 0));
    assert_eq!(d.lookup(1), (0, 1));
    assert_eq!(d.lookup(2), (1, 0));
    assert_eq!(d.lookup(5), (2, 2));
    assert_eq!(d.change_page(1), None);
    assert_eq!(d.change_page(4), Some((1, 0)));
    assert_eq!(d.current_page(), 4);
    assert_eq!(d.xpub(1).0, "XPUB #1");
}

#[test]
fn address_details_holds_at_most_max_xpubs() {
    let mut d = details_with(MAX_XPUBS);
    assert_eq!(d.add_xpub(String::from("one"), String::from("more")), Err(Error::OutOfRange));
    d.place(&[]);
    assert_eq!(d.total_pages(), 2);
}

#[test]
fn subpaged_address_details_navigation() {
    let mut d = SubpagedDetails::new(String::from("bc1q"), true, None, None);
    d.add_xpub(String::from("XPUB #0"), String::from("xpub0")).unwrap();
    assert_eq!(d.page_count(), 3);
    assert_eq!(d.event(ButtonPos::Right, 1), None);
    assert_eq!(d.current_page, 1);
    assert_eq!(d.event(ButtonPos::Right, 3), None);
    assert!(d.is_xpub_page() && d.is_last_page());
    assert!(d.buttons.btn_right.is_none());
    assert!(matches!(d.buttons.btn_middle, Some(ButtonDetails::ShowAllArmed)));
    assert_eq!(d.fill_xpub_page().unwrap().1, "xpub0");
    assert_eq!(d.event(ButtonPos::Middle, 3), None);
    assert!(d.is_in_subpage());
    assert_eq!(d.event(ButtonPos::Right, 3), None);
    assert!(d.is_last_subpage());
    assert_eq!(d.event(ButtonPos::Right, 3), None);
    assert_eq!(d.current_subpage, 2);
    d.event(ButtonPos::Left, 3);
    d.event(ButtonPos::Left, 3);
    assert!(!d.is_in_subpage());
    d.event(ButtonPos::Left, 1);
    d.event(ButtonPos::Left, 1);
    assert_eq!(d.current_page, 0);
    assert_eq!(d.event(ButtonPos::Left, 1), Some(()));
}

#[test]
fn menu_items_and_brightness() {
    let item = VerticalMenuItem::Item("Settings").button();
    assert_eq!((item.text, item.icon, item.style), ("Settings", MenuIcon::ChevronRight, MenuStyle::Default));
    let cancel = VerticalMenuItem::Cancel("Skip").button();
    assert_eq!((cancel.icon, cancel.style), (MenuIcon::Cancel, MenuStyle::WarningHigh));
    assert_eq!(VerticalMenuChoiceMsg::Selected(2), VerticalMenuChoiceMsg::Selected(2));
    let mut dialog = SetBrightnessDialog::new(10, 255, 100);
    assert_eq!(dialog.event(Some(SliderMsg::Changed(120))), (None, BrightnessAction::SetBacklight(120)));
    assert_eq!(
        dialog.event(Some(SliderMsg::Confirmed)),
        (Some(CancelConfirmMsg::Confirmed), BrightnessAction::StoreBrightness(120))
    );
    assert_eq!(dialog.event(Some(SliderMsg::Cancelled)).0, Some(CancelConfirmMsg::Cancelled));
    assert_eq!(dialog.event(None), (None, BrightnessAction::Nothing));
}

fn menu_items(n: usize) -> heapless::Vec<VerticalMenuItem, 6> {
    let labels = ["one", "two", "three", "four", "five", "six"];
    let mut items = heapless::Vec::new();
    for label in labels.iter().take(n) {
        items.push(VerticalMenuItem::Item(label)).unwrap();
    }
    items
}

#[test]
fn scrolled_menu_pages_of_three_or_two() {
    let mut small = ScrolledVerticalMenu::new(menu_items(3), 0);
    assert_eq!((small.menu_capacity, small.pager.total), (3, 1));
    small.place();
    assert!(!small.up && !small.down);
    assert_eq!(small.active.len(), 3);
    let mut big = ScrolledVerticalMenu::new(menu_items(5), 4);
    assert_eq!((big.menu_capacity, big.pager.total, big.pager.current), (2, 3, 2));
    big.place();
    assert!(big.up && !big.down);
    assert_eq!(big.active.len(), 1);
    assert_eq!(big.active[0].text, "five");
    assert_eq!(big.event(MenuEvent::ItemClicked(0)), Some(VerticalMenuChoiceMsg::Selected(4)));
    assert_eq!(big.event(MenuEvent::ItemClicked(1)), None);
    big.event(MenuEvent::UpClicked);
    big.place();
    assert_eq!(big.pager.current, 1);
    assert_eq!(big.active[1].text, "four");
    assert_eq!(big.event(MenuEvent::ItemClicked(1)), Some(VerticalMenuChoiceMsg::Selected(3)));
    let past_end = ScrolledVerticalMenu::new(menu_items(4), 9);
    assert_eq!(past_end.pager.current, 1);
}

#[test]
fn paged_menu_shows_three_at_a_time() {
    let mut menu = PagedVerticalMenu::new(7);
    assert_eq!(menu.pager(), Pager { current: 0, total: 3 });
    assert_eq!(menu.shown, [Some(0), Some(1), Some(2)]);
    menu.change_page(2);
    assert_eq!(menu.shown, [Some(6), None, None]);
    assert_eq!(menu.event(0), Some(VerticalMenuChoiceMsg::Selected(6)));
    assert_eq!(menu.event(1), None);
    assert_eq!(PagedVerticalMenu::new(6).pager().total, 2);
}

#[test]
fn pin_keyboard_render_parts() {
    let mut kb = keyboard(true);
    assert_eq!(
        kb.render(),
        vec![
            PinPart::MajorWarning,
            PinPart::MinorPrompt,
            PinPart::CancelButton,
            PinPart::ConfirmButton,
            PinPart::DigitKeys
        ]
    );
    kb.event(PinEvent::DigitClicked(5));
    assert_eq!(
        kb.render(),
        vec![PinPart::EraseButton, PinPart::PinField, PinPart::ConfirmButton, PinPart::DigitKeys]
    );
    let mut input = PinInput::new();
    input.push("4");
    input.last_digit_timer = true;
    input.event(PinEvent::LastDigitTimerExpired);
    assert!(!input.last_digit_timer);
    input.event(PinEvent::TouchStart(false));
    assert_eq!(input.display_style, DisplayStyle::Hidden);
}

#[test]
fn chunkified_style_by_address_length() {
    let short = get_chunkified_text_style(64);
    assert_eq!((short.chunks.chunk_size, short.chunks.x_offset, short.chunks.max_rows), (4, 9, 0));
    let long = get_chunkified_text_style(65);
    assert_eq!((long.chunks.x_offset, long.chunks.max_rows, long.ellipsis_offset), (7, 4, -12));
    assert_eq!(long.line_spacing, 5);
}
