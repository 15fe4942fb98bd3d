//! Swipe flows: screens that follow one another on swipes and on what the
//! screens report.
use vstd::prelude::*;

verus! {

/// A swipe direction.
#[derive(Debug, Clone, Copy, PartialEq, Eq, Structural)]
pub enum Direction {
    Up,
    Down,
    Left,
    Right,
}

/// How a screen comes on.
#[derive(Debug, Clone, Copy, PartialEq, Eq, Structural)]
pub enum AttachType {
    /// Shown at once.
    Initial,
    /// Slid in by a swipe in this direction.
    Swipe(Direction),
}

/// What a screen of a flow reports.
#[derive(Debug, Clone, Copy, PartialEq, Eq, Structural)]
pub enum FlowMsg {
    Confirmed,
    Cancelled,
    Info,
    Choice(usize),
}

/// What the flow does next.
#[derive(Debug, Clone, Copy, PartialEq, Eq, Structural)]
pub enum Decision<S> {
    /// Stay on the current screen.
    Nothing,
    /// Go to a screen, bringing it on as said.
    Transition(S, AttachType),
    /// Leave the flow with a result.
    Return(FlowMsg),
}

/// The screens of the prompt to back up a new wallet.
#[derive(Debug, Clone, Copy, PartialEq, Eq, Structural)]
pub enum PromptBackup {
    Intro,
    Menu,
    SkipBackupIntro,
    SkipBackupConfirm,
}

impl PromptBackup {
    /// Position of the screen in the flow.
    pub fn index(&self) -> (r: usize)
        ensures
            r == match self {
                PromptBackup::Intro => 0usize,
                PromptBackup::Menu => 1,
                PromptBackup::SkipBackupIntro => 2,
                PromptBackup::SkipBackupConfirm => 3,
            },
    {
        match self {
            PromptBackup::Intro => 0,
            PromptBackup::Menu => 1,
            PromptBackup::SkipBackupIntro => 2,
            PromptBackup::SkipBackupConfirm => 3,
        }
    }

    /// Swiping up on the intro confirms; up and down move between the two
    /// skip screens; anything else stays.
    pub fn handle_swipe(&self, direction: Direction) -> (r: Decision<PromptBackup>)
        ensures
            r == match (*self, direction) {
                (PromptBackup::Intro, Direction::Up) => Decision::Return(FlowMsg::Confirmed),
                (PromptBackup::SkipBackupIntro, Direction::Up) => Decision::Transition(
                    PromptBackup::SkipBackupConfirm,
                    AttachType::Swipe(direction),
                ),
                (PromptBackup::SkipBackupConfirm, Direction::Down) => Decision::Transition(
                    PromptBackup::SkipBackupIntro,
                    AttachType::Swipe(direction),
                ),
                _ => Decision::Nothing,
            },
    {
        match (*self, direction) {
            (PromptBackup::Intro, Direction::Up) => Decision::Return(FlowMsg::Confirmed),
            (PromptBackup::SkipBackupIntro, Direction::Up) => Decision::Transition(
                PromptBackup::SkipBackupConfirm,
                AttachType::Swipe(direction),
            ),
            (PromptBackup::SkipBackupConfirm, Direction::Down) => Decision::Transition(
                PromptBackup::SkipBackupIntro,
                AttachType::Swipe(direction),
            ),
            _ => Decision::Nothing,
        }
    }

    /// The menu opens from the intro; its first choice leads to skipping;
    /// cancelling steps back; confirming the skip leaves the flow cancelled.
    pub fn handle_event(&self, msg: FlowMsg) -> (r: Decision<PromptBackup>)
        ensures
            r == match (*self, msg) {
                (PromptBackup::Intro, FlowMsg::Info) => Decision::Transition(
                    PromptBackup::Menu,
                    AttachType::Initial,
                ),
                (PromptBackup::Menu, FlowMsg::Choice(0)) => Decision::Transition(
                    PromptBackup::SkipBackupIntro,
                    AttachType::Swipe(Direction::Left),
                ),
                (PromptBackup::Menu, FlowMsg::Cancelled) => Decision::Transition(
                    PromptBackup::Intro,
                    AttachType::Swipe(Direction::Right),
                ),
                (PromptBackup::SkipBackupIntro, FlowMsg::Cancelled) => Decision::Transition(
                    PromptBackup::Menu,
                    AttachType::Initial,
                ),
                (PromptBackup::SkipBackupConfirm, FlowMsg::Cancelled) => Decision::Transition(
                    PromptBackup::SkipBackupIntro,
                    AttachType::Swipe(Direction::Right),
                ),
                (PromptBackup::SkipBackupConfirm, FlowMsg::Confirmed) => Decision::Return(
                    FlowMsg::Cancelled,
                ),
                _ => Decision::Nothing,
            },
    {
        match (*self, msg) {
            (PromptBackup::Intro, FlowMsg::Info) => Decision::Transition(
                PromptBackup::Menu,
                AttachType::Initial,
            ),
            (PromptBackup::Menu, FlowMsg::Choice(0)) => Decision::Transition(
                PromptBackup::SkipBackupIntro,
                AttachType::Swipe(Direction::Left),
            ),
            (PromptBackup::Menu, FlowMsg::Cancelled) => Decision::Transition(
                PromptBackup::Intro,
                AttachType::Swipe(Direction::Right),
            ),
            (PromptBackup::SkipBackupIntro, FlowMsg::Cancelled) => Decision::Transition(
                PromptBackup::Menu,
                AttachType::Initial,
            ),
            (PromptBackup::SkipBackupConfirm, FlowMsg::Cancelled) => Decision::Transition(
                PromptBackup::SkipBackupIntro,
                AttachType::Swipe(Direction::Right),
            ),
            (PromptBackup::SkipBackupConfirm, FlowMsg::Confirmed) => Decision::Return(
                FlowMsg::Cancelled,
            ),
            _ => Decision::Nothing,
        }
    }
}

/// The screens that show the words of a backup share.
#[derive(Debug, Clone, Copy, PartialEq, Eq, Structural)]
pub enum ShowShareWords {
    Instruction,
    Words,
    Confirm,
    CheckBackupIntro,
}

impl ShowShareWords {
    /// Position of the screen in the flow.
    pub fn index(&self) -> (r: usize)
        ensures
            r == match self {
                ShowShareWords::Instruction => 0usize,
                ShowShareWords::Words => 1,
                ShowShareWords::Confirm => 2,
                ShowShareWords::CheckBackupIntro => 3,
            },
    {
        match self {
            ShowShareWords::Instruction => 0,
            ShowShareWords::Words => 1,
            ShowShareWords::Confirm => 2,
            ShowShareWords::CheckBackupIntro => 3,
        }
    }

    /// Swipes move between instruction, words and confirmation; swiping up
    /// on the last screen confirms.
    pub fn handle_swipe(&self, direction: Direction) -> (r: Decision<ShowShareWords>)
        ensures
            r == match (*self, direction) {
                (ShowShareWords::Instruction, Direction::Up) => Decision::Transition(
                    ShowShareWords::Words,
                    AttachType::Swipe(direction),
                ),
                (ShowShareWords::Confirm, Direction::Down) => Decision::Transition(
                    ShowShareWords::Words,
                    AttachType::Swipe(direction),
                ),
                (ShowShareWords::Words, Direction::Up) => Decision::Transition(
                    ShowShareWords::Confirm,
                    AttachType::Swipe(direction),
                ),
                (ShowShareWords::Words, Direction::Down) => Decision::Transition(
                    ShowShareWords::Instruction,
                    AttachType::Swipe(direction),
                ),
                (ShowShareWords::CheckBackupIntro, Direction::Up) => Decision::Return(
                    FlowMsg::Confirmed,
                ),
                _ => Decision::Nothing,
            },
    {
        match (*self, direction) {
            (ShowShareWords::Instruction, Direction::Up) => Decision::Transition(
                ShowShareWords::Words,
                AttachType::Swipe(direction),
            ),
            (ShowShareWords::Confirm, Direction::Down) => Decision::Transition(
                ShowShareWords::Words,
                AttachType::Swipe(direction),
            ),
            (ShowShareWords::Words, Direction::Up) => Decision::Transition(
                ShowShareWords::Confirm,
                AttachType::Swipe(direction),
            ),
            (ShowShareWords::Words, Direction::Down) => Decision::Transition(
                ShowShareWords::Instruction,
                AttachType::Swipe(direction),
            ),
            (ShowShareWords::CheckBackupIntro, Direction::Up) => Decision::Return(
                FlowMsg::Confirmed,
            ),
            _ => Decision::Nothing,
        }
    }

    /// Scrolling past the first word goes back to the instruction, past the
    /// last one on to the confirmation, and confirming leads to the check.
    pub fn handle_event(&self, msg: FlowMsg) -> (r: Decision<ShowShareWords>)
        ensures
            r == match (*self, msg) {
                (ShowShareWords::Words, FlowMsg::Cancelled) => Decision::Transition(
                    ShowShareWords::Instruction,
                    AttachType::Swipe(Direction::Down),
                ),
                (ShowShareWords::Words, FlowMsg::Confirmed) => Decision::Transition(
                    ShowShareWords::Confirm,
                    AttachType::Swipe(Direction::Up),
                ),
                (ShowShareWords::Confirm, FlowMsg::Confirmed) => Decision::Transition(
                    ShowShareWords::CheckBackupIntro,
                    AttachType::Swipe(Direction::Up),
                ),
                _ => Decision::Nothing,
            },
    {
        match (*self, msg) {
            (ShowShareWords::Words, FlowMsg::Cancelled) => Decision::Transition(
                ShowShareWords::Instruction,
                AttachType::Swipe(Direction::Down),
            ),
            (ShowShareWords::Words, FlowMsg::Confirmed) => Decision::Transition(
                ShowShareWords::Confirm,
                AttachType::Swipe(Direction::Up),
            ),
            (ShowShareWords::Confirm, FlowMsg::Confirmed) => Decision::Transition(
                ShowShareWords::CheckBackupIntro,
                AttachType::Swipe(Direction::Up),
            ),
            _ => Decision::Nothing,
        }
    }
}

} // verus!
