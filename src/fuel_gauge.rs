//! The battery indicator: when it shows, and which icon and colors it uses.
use vstd::prelude::*;
use crate::font::FontInfo;
use crate::geometry::Rect;

verus! {

/// State of charge above which the battery shows full.
pub const SOC_THRESHOLD_FULL: u8 = 80;

/// State of charge above which the battery shows half full.
pub const SOC_THRESHOLD_MID: u8 = 25;

/// State of charge above which the battery shows low rather than empty.
pub const SOC_THRESHOLD_LOW: u8 = 9;

/// Whether the battery is being charged.
#[derive(Debug, Clone, Copy, PartialEq, Eq, Structural)]
pub enum ChargingState {
    Charging,
    Discharging,
    Idle,
}

/// Where in its area the indicator sits.
#[derive(Debug, Clone, Copy, PartialEq, Eq, Structural)]
pub enum Alignment {
    Start,
    Center,
    End,
}

/// The battery icons.
#[derive(Debug, Clone, Copy, PartialEq, Eq, Structural)]
pub enum BatteryIcon {
    Zap,
    Full,
    Mid,
    Low,
    Empty,
}

/// The colors of the indicator.
#[derive(Debug, Clone, Copy, PartialEq, Eq, Structural)]
pub enum IndicatorColor {
    GreyLight,
    Yellow,
    Red,
}

/// When the indicator shows. A timer's `bool` says whether it runs.
#[derive(Debug, Clone, Copy, PartialEq, Eq, Structural)]
pub enum FuelGaugeMode {
    /// Always.
    Always,
    /// For a while after the charging state changes.
    OnChargingChange(bool),
    /// For a while after the charging state changes or the screen appears.
    OnChargingChangeOrAttach(bool),
}

/// What happens to the indicator.
#[derive(Debug, Clone, Copy, PartialEq, Eq, Structural)]
pub enum FuelGaugeEvent {
    /// The screen appeared; the flag says whether animations are enabled.
    Attach(bool),
    /// The power manager reported a new state; the flag says whether the
    /// charging state changed.
    PowerChange(bool),
    /// The indicator's timer ran out.
    TimerExpired,
}

/// A small battery indicator: an icon and the state of charge in percent.
#[derive(Clone, Copy)]
pub struct FuelGauge {
    pub area: Rect,
    pub alignment: Alignment,
    pub mode: FuelGaugeMode,
    pub charging_state: ChargingState,
    /// State of charge in percent, once known.
    pub soc: Option<u8>,
    /// Font of the percentage; the default font when `None`.
    pub font: Option<&'static FontInfo>,
}

impl FuelGauge {
    fn new(mode: FuelGaugeMode) -> (r: FuelGauge)
        ensures
            r.mode == mode,
            r.area == (Rect { x0: 0, y0: 0, x1: 0, y1: 0 }),
            r.alignment == Alignment::Start,
            r.charging_state == ChargingState::Idle,
            r.soc is None,
            r.font is None,
    {
        FuelGauge {
            area: Rect { x0: 0, y0: 0, x1: 0, y1: 0 },
            alignment: Alignment::Start,
            mode,
            charging_state: ChargingState::Idle,
            soc: None,
            font: None,
        }
    }

    /// An indicator that always shows.
    pub fn always() -> (r: FuelGauge)
        ensures
            r.mode == FuelGaugeMode::Always,
            r.alignment == Alignment::Start,
            r.charging_state == ChargingState::Idle,
            r.soc is None,
    {
        Self::new(FuelGaugeMode::Always)
    }

    /// An indicator that shows for a while after the charging state changes.
    pub fn on_charging_change() -> (r: FuelGauge)
        ensures
            r.mode == FuelGaugeMode::OnChargingChange(false),
            r.alignment == Alignment::Start,
            r.charging_state == ChargingState::Idle,
            r.soc is None,
    {
        Self::new(FuelGaugeMode::OnChargingChange(false))
    }

    /// An indicator that shows for a while after the charging state changes
    /// or the screen appears.
    pub fn on_charging_change_or_attach() -> (r: FuelGauge)
        ensures
            r.mode == FuelGaugeMode::OnChargingChangeOrAttach(false),
            r.alignment == Alignment::Start,
            r.charging_state == ChargingState::Idle,
            r.soc is None,
    {
        Self::new(FuelGaugeMode::OnChargingChangeOrAttach(false))
    }

    pub fn with_alignment(self, alignment: Alignment) -> (r: FuelGauge)
        ensures
            r == (FuelGauge { alignment, ..self }),
    {
        FuelGauge { alignment, ..self }
    }

    pub fn with_font(self, font: &'static FontInfo) -> (r: FuelGauge)
        ensures
            r == (FuelGauge { font: Some(font), ..self }),
    {
        FuelGauge { font: Some(font), ..self }
    }

    /// Records what the power manager reports.
    pub fn update_pm_state(&mut self, soc: u8, charging_state: ChargingState)
        ensures
            *final(self) == (FuelGauge { soc: Some(soc), charging_state, ..*old(self) }),
    {
        self.soc = Some(soc);
        self.charging_state = charging_state;
    }

    /// Whether the indicator is to be drawn now.
    pub fn should_be_shown(&self) -> (r: bool)
        ensures
            r == match self.mode {
                FuelGaugeMode::Always => true,
                FuelGaugeMode::OnChargingChange(running) => running,
                FuelGaugeMode::OnChargingChangeOrAttach(running) => running,
            },
    {
        match self.mode {
            FuelGaugeMode::Always => true,
            FuelGaugeMode::OnChargingChange(running) => running,
            FuelGaugeMode::OnChargingChangeOrAttach(running) => running,
        }
    }

    /// The icon, its color and the text's color for a battery in
    /// `charging_state` at `soc` percent.
    pub fn battery_indication(&self, charging_state: ChargingState, soc: u8) -> (r: (
        BatteryIcon,
        IndicatorColor,
        IndicatorColor,
    ))
        ensures
            r == (if charging_state == ChargingState::Charging {
                (BatteryIcon::Zap, IndicatorColor::Yellow, IndicatorColor::GreyLight)
            } else if soc > SOC_THRESHOLD_FULL {
                (BatteryIcon::Full, IndicatorColor::GreyLight, IndicatorColor::GreyLight)
            } else if soc > SOC_THRESHOLD_MID {
                (BatteryIcon::Mid, IndicatorColor::GreyLight, IndicatorColor::GreyLight)
            } else if soc > SOC_THRESHOLD_LOW {
                (BatteryIcon::Low, IndicatorColor::Yellow, IndicatorColor::GreyLight)
            } else {
                (BatteryIcon::Empty, IndicatorColor::Red, IndicatorColor::Red)
            }),
    {
        match charging_state {
            ChargingState::Charging => (BatteryIcon::Zap, IndicatorColor::Yellow, IndicatorColor::GreyLight),
            ChargingState::Discharging | ChargingState::Idle => {
                if soc > SOC_THRESHOLD_FULL {
                    (BatteryIcon::Full, IndicatorColor::GreyLight, IndicatorColor::GreyLight)
                } else if soc > SOC_THRESHOLD_MID {
                    (BatteryIcon::Mid, IndicatorColor::GreyLight, IndicatorColor::GreyLight)
                } else if soc > SOC_THRESHOLD_LOW {
                    (BatteryIcon::Low, IndicatorColor::Yellow, IndicatorColor::GreyLight)
                } else {
                    (BatteryIcon::Empty, IndicatorColor::Red, IndicatorColor::Red)
                }
            },
        }
    }

    /// Takes its area and returns it.
    pub fn place(&mut self, bounds: Rect) -> (r: Rect)
        ensures
            r == bounds,
            *final(self) == (FuelGauge { area: bounds, ..*old(self) }),
    {
        self.area = bounds;
        self.area
    }

    /// Handles one event. `reading` is the power manager's report (state of
    /// charge and charging state), read by the caller when the event is a
    /// power change, or an attach before any state is known.
    pub fn event(&mut self, event: FuelGaugeEvent, reading: (u8, ChargingState))
        ensures
            final(self).area == old(self).area,
            final(self).alignment == old(self).alignment,
            final(self).font == old(self).font,
            (match event {
                FuelGaugeEvent::Attach(_) => old(self).soc is None,
                FuelGaugeEvent::PowerChange(_) => true,
                FuelGaugeEvent::TimerExpired => false,
            }) ==> final(self).soc == Some(reading.0) && final(self).charging_state == reading.1,
            !(match event {
                FuelGaugeEvent::Attach(_) => old(self).soc is None,
                FuelGaugeEvent::PowerChange(_) => true,
                FuelGaugeEvent::TimerExpired => false,
            }) ==> final(self).soc == old(self).soc && final(self).charging_state
                == old(self).charging_state,
            final(self).mode == match (old(self).mode, event) {
                (FuelGaugeMode::OnChargingChangeOrAttach(_), FuelGaugeEvent::Attach(true)) => FuelGaugeMode::OnChargingChangeOrAttach(true),
                (FuelGaugeMode::OnChargingChange(_), FuelGaugeEvent::PowerChange(true)) => FuelGaugeMode::OnChargingChange(true),
                (FuelGaugeMode::OnChargingChangeOrAttach(_), FuelGaugeEvent::PowerChange(true)) => FuelGaugeMode::OnChargingChangeOrAttach(true),
                (FuelGaugeMode::OnChargingChange(_), FuelGaugeEvent::TimerExpired) => FuelGaugeMode::OnChargingChange(false),
                (FuelGaugeMode::OnChargingChangeOrAttach(_), FuelGaugeEvent::TimerExpired) => FuelGaugeMode::OnChargingChangeOrAttach(false),
                (m, _) => m,
            },
    {
        match event {
            FuelGaugeEvent::Attach(animations) => {
                if self.soc.is_none() {
                    self.update_pm_state(reading.0, reading.1);
                }
                if let FuelGaugeMode::OnChargingChangeOrAttach(_) = self.mode {
                    if animations {
                        self.mode = FuelGaugeMode::OnChargingChangeOrAttach(true);
                    }
                }
            },
            FuelGaugeEvent::PowerChange(changed) => {
                self.update_pm_state(reading.0, reading.1);
                match self.mode {
                    FuelGaugeMode::Always => {},
                    FuelGaugeMode::OnChargingChange(_) => {
                        if changed {
                            self.mode = FuelGaugeMode::OnChargingChange(true);
                        }
                    },
                    FuelGaugeMode::OnChargingChangeOrAttach(_) => {
                        if changed {
                            self.mode = FuelGaugeMode::OnChargingChangeOrAttach(true);
                        }
                    },
                }
            },
            FuelGaugeEvent::TimerExpired => {
                match self.mode {
                    FuelGaugeMode::Always => {},
                    FuelGaugeMode::OnChargingChange(_) => {
                        self.mode = FuelGaugeMode::OnChargingChange(false);
                    },
                    FuelGaugeMode::OnChargingChangeOrAttach(_) => {
                        self.mode = FuelGaugeMode::OnChargingChangeOrAttach(false);
                    },
                }
            },
        }
    }
}

} // verus!
