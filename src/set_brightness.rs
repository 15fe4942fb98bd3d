//! The dialog that sets the display brightness with a slider.
use vstd::prelude::*;

verus! {

/// What the slider dialog reports.
#[derive(Debug, Clone, Copy, PartialEq, Eq, Structural)]
pub enum SliderMsg {
    /// The slider moved to this value.
    Changed(u16),
    Cancelled,
    Confirmed,
}

/// What the brightness dialog reports to its owner.
#[derive(Debug, Clone, Copy, PartialEq, Eq, Structural)]
pub enum CancelConfirmMsg {
    Cancelled,
    Confirmed,
}

/// What the owner is to do with the hardware.
#[derive(Debug, Clone, Copy, PartialEq, Eq, Structural)]
pub enum BrightnessAction {
    Nothing,
    /// Set the backlight to this level now.
    SetBacklight(u16),
    /// Store this level as the brightness setting.
    StoreBrightness(u16),
}

/// A slider from the lowest to the highest backlight level.
#[derive(Debug, Clone, Copy, PartialEq, Eq, Structural)]
pub struct SetBrightnessDialog {
    pub min: u16,
    pub max: u16,
    pub value: u16,
}

impl SetBrightnessDialog {
    /// A slider over `min..=max` (the backlight's range) at `current`.
    pub fn new(min: u8, max: u8, current: u8) -> (r: SetBrightnessDialog)
        ensures
            r == (SetBrightnessDialog { min: min as u16, max: max as u16, value: current as u16 }),
    {
        SetBrightnessDialog { min: min as u16, max: max as u16, value: current as u16 }
    }

    /// Follows the slider: a move sets the backlight at once; confirming
    /// stores the level and reports `Confirmed`; cancelling reports
    /// `Cancelled`.
    pub fn event(&mut self, msg: Option<SliderMsg>) -> (r: (Option<CancelConfirmMsg>, BrightnessAction))
        ensures
            r == match msg {
                Some(SliderMsg::Changed(v)) => (None, BrightnessAction::SetBacklight(v)),
                Some(SliderMsg::Cancelled) => (Some(CancelConfirmMsg::Cancelled), BrightnessAction::Nothing),
                Some(SliderMsg::Confirmed) => (
                    Some(CancelConfirmMsg::Confirmed),
                    BrightnessAction::StoreBrightness(old(self).value),
                ),
                None => (None, BrightnessAction::Nothing),
            },
            final(self).value == match msg {
                Some(SliderMsg::Changed(v)) => v,
                _ => old(self).value,
            },
            final(self).min == old(self).min,
            final(self).max == old(self).max,
    {
        match msg {
            Some(SliderMsg::Changed(v)) => {
                self.value = v;
                (None, BrightnessAction::SetBacklight(v))
            },
            Some(SliderMsg::Cancelled) => (Some(CancelConfirmMsg::Cancelled), BrightnessAction::Nothing),
            Some(SliderMsg::Confirmed) => (
                Some(CancelConfirmMsg::Confirmed),
                BrightnessAction::StoreBrightness(self.value),
            ),
            None => (None, BrightnessAction::Nothing),
        }
    }
}

} // verus!
