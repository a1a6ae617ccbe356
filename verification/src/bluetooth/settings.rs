//! The values of the control commands: how each setting reads and writes the
//! bytes of its command.

use vstd::prelude::*;

verus! {

/// The highest position of a percentage setting.
pub const PERCENT_MAX: u8 = 100;

/// A setting with a value in the bytes of a control command.
pub trait ControlValue: Sized {
    /// The bytes of the value.
    spec fn bytes(self) -> Seq<u8>;

    /// The value that bytes stand for, if any.
    spec fn decoded(value: Seq<u8>) -> Option<Self>;

    /// The bytes to send.
    fn to_value(self) -> (value: Vec<u8>)
        ensures
            value@ == self.bytes(),
    ;

    /// The value reported as these bytes, or None when they do not decode.
    fn from_value(value: &[u8]) -> (decoded: Option<Self>)
        ensures
            decoded == Self::decoded(value@),
    ;
}

/// An on/off setting.
#[derive(Debug, Clone, Copy, PartialEq, Eq, Structural)]
pub struct Toggle(pub bool);

/// The byte of an on/off setting.
pub open spec fn switch_byte(on: bool) -> u8 {
    if on {
        0x01
    } else {
        0x02
    }
}

impl ControlValue for Toggle {
    open spec fn bytes(self) -> Seq<u8> {
        seq![switch_byte(self.0)]
    }

    open spec fn decoded(value: Seq<u8>) -> Option<Toggle> {
        if value == seq![0x01u8] {
            Some(Toggle(true))
        } else if value == seq![0x02u8] {
            Some(Toggle(false))
        } else {
            None
        }
    }

    fn to_value(self) -> (value: Vec<u8>) {
        let byte: u8 = if self.0 {
            0x01
        } else {
            0x02
        };
        let value: Vec<u8> = vec![byte];
        proof {
            assert(value@ =~= self.bytes());
        }
        value
    }

    fn from_value(value: &[u8]) -> (decoded: Option<Toggle>) {
        match single(value) {
            Some(b) => if b == 0x01 {
                Some(Toggle(true))
            } else if b == 0x02 {
                Some(Toggle(false))
            } else {
                None
            },
            None => None,
        }
    }
}

/// The byte of a one-byte value.
pub open spec fn single_byte(value: Seq<u8>) -> Option<u8> {
    if value.len() == 1 {
        Some(value[0])
    } else {
        None
    }
}

fn single(value: &[u8]) -> (byte: Option<u8>)
    ensures
        byte == single_byte(value@),
        forall|b: u8| (value@ == #[trigger] seq![b]) <==> byte == Some(b),
{
    if value.len() == 1 {
        proof {
            assert(value@ =~= seq![value@[0]]);
            assert forall|b: u8| value@ == #[trigger] seq![b] implies value@[0] == b by {
                assert(seq![b][0] == b);
            }
        }
        Some(value[0])
    } else {
        proof {
            assert forall|b: u8| value@ != #[trigger] seq![b] by {
                assert(seq![b].len() == 1);
            }
        }
        None
    }
}

/// What a long press on one stem does.
#[derive(Debug, Clone, Copy, PartialEq, Eq, Structural)]
pub enum ClickHoldAction {
    NoiseControl,
    Siri,
}

impl ClickHoldAction {
    /// The byte of the action.
    pub open spec fn byte(self) -> u8 {
        match self {
            ClickHoldAction::NoiseControl => 0x01,
            ClickHoldAction::Siri => 0x05,
        }
    }

    /// The action of a byte.
    pub open spec fn of_byte(b: u8) -> Option<ClickHoldAction> {
        if b == 0x01 {
            Some(ClickHoldAction::NoiseControl)
        } else if b == 0x05 {
            Some(ClickHoldAction::Siri)
        } else {
            None
        }
    }

    fn to_byte(self) -> (b: u8)
        ensures
            b == self.byte(),
    {
        match self {
            ClickHoldAction::NoiseControl => 0x01,
            ClickHoldAction::Siri => 0x05,
        }
    }

    fn from_byte(b: u8) -> (action: Option<ClickHoldAction>)
        ensures
            action == ClickHoldAction::of_byte(b),
    {
        if b == 0x01 {
            Some(ClickHoldAction::NoiseControl)
        } else if b == 0x05 {
            Some(ClickHoldAction::Siri)
        } else {
            None
        }
    }

    /// The actions in menu order.
    pub fn all() -> (all: [ClickHoldAction; 2])
        ensures
            all@ == seq![ClickHoldAction::NoiseControl, ClickHoldAction::Siri],
    {
        [ClickHoldAction::NoiseControl, ClickHoldAction::Siri]
    }

    /// The text of the menu entry.
    pub fn label(self) -> (label: &'static str)
        ensures
            label@ == match self {
                ClickHoldAction::NoiseControl => "Noise Control"@,
                ClickHoldAction::Siri => "Siri"@,
            },
    {
        match self {
            ClickHoldAction::NoiseControl => "Noise Control",
            ClickHoldAction::Siri => "Siri",
        }
    }
}

/// The long press actions of both stems.
#[derive(Debug, Clone, Copy, PartialEq, Eq, Structural)]
pub struct ClickHoldMode {
    pub right: ClickHoldAction,
    pub left: ClickHoldAction,
}

impl ControlValue for ClickHoldMode {
    open spec fn bytes(self) -> Seq<u8> {
        seq![self.right.byte(), self.left.byte()]
    }

    open spec fn decoded(value: Seq<u8>) -> Option<ClickHoldMode> {
        if value.len() != 2 {
            None
        } else {
            match (ClickHoldAction::of_byte(value[0]), ClickHoldAction::of_byte(value[1])) {
                (Some(right), Some(left)) => Some(ClickHoldMode { right, left }),
                _ => None,
            }
        }
    }

    fn to_value(self) -> (value: Vec<u8>) {
        let value: Vec<u8> = vec![self.right.to_byte(), self.left.to_byte()];
        proof {
            assert(value@ =~= self.bytes());
        }
        value
    }

    fn from_value(value: &[u8]) -> (decoded: Option<ClickHoldMode>) {
        if value.len() != 2 {
            return None;
        }
        match (ClickHoldAction::from_byte(value[0]), ClickHoldAction::from_byte(value[1])) {
            (Some(right), Some(left)) => Some(ClickHoldMode { right, left }),
            _ => None,
        }
    }
}

/// A listening mode that the press and hold cycle may go through.
#[derive(Debug, Clone, Copy, PartialEq, Eq, Structural)]
pub enum CycleMode {
    Off,
    NoiseCancellation,
    Transparency,
    Adaptive,
}

impl CycleMode {
    /// The modes in the order of their bits, lowest first.
    pub fn all() -> (all: [CycleMode; 4])
        ensures
            all@ == seq![
                CycleMode::Off,
                CycleMode::NoiseCancellation,
                CycleMode::Transparency,
                CycleMode::Adaptive,
            ],
    {
        [CycleMode::Off, CycleMode::NoiseCancellation, CycleMode::Transparency, CycleMode::Adaptive]
    }

    /// The name of the mode.
    pub open spec fn name_text(self) -> Seq<char> {
        match self {
            CycleMode::Off => "Off"@,
            CycleMode::NoiseCancellation => "Noise Cancellation"@,
            CycleMode::Transparency => "Transparency"@,
            CycleMode::Adaptive => "Adaptive"@,
        }
    }

    /// A line on what the mode does.
    pub open spec fn line_text(self) -> Seq<char> {
        match self {
            CycleMode::Off => "Turns off noise management"@,
            CycleMode::NoiseCancellation => "Blocks out external sounds"@,
            CycleMode::Transparency => "Lets in external sounds"@,
            CycleMode::Adaptive => "Dynamically adjusts external noise"@,
        }
    }

    /// The name of the mode.
    pub fn label(self) -> (label: &'static str)
        ensures
            label@ == match self {
                CycleMode::Off => "Off"@,
                CycleMode::NoiseCancellation => "Noise Cancellation"@,
                CycleMode::Transparency => "Transparency"@,
                CycleMode::Adaptive => "Adaptive"@,
            },
            label@ == self.name_text(),
    {
        match self {
            CycleMode::Off => "Off",
            CycleMode::NoiseCancellation => "Noise Cancellation",
            CycleMode::Transparency => "Transparency",
            CycleMode::Adaptive => "Adaptive",
        }
    }

    /// A line on what the mode does.
    pub fn description(self) -> (text: &'static str)
        ensures
            text@ == match self {
                CycleMode::Off => "Turns off noise management"@,
                CycleMode::NoiseCancellation => "Blocks out external sounds"@,
                CycleMode::Transparency => "Lets in external sounds"@,
                CycleMode::Adaptive => "Dynamically adjusts external noise"@,
            },
            text@ == self.line_text(),
    {
        match self {
            CycleMode::Off => "Turns off noise management",
            CycleMode::NoiseCancellation => "Blocks out external sounds",
            CycleMode::Transparency => "Lets in external sounds",
            CycleMode::Adaptive => "Dynamically adjusts external noise",
        }
    }
}

/// The listening modes that a long press cycles through.
#[derive(Debug, Clone, Copy, PartialEq, Eq, Structural)]
pub struct ListeningModeCycle {
    pub off: bool,
    pub noise_cancellation: bool,
    pub transparency: bool,
    pub adaptive: bool,
}

/// The number a flag adds.
pub open spec fn flag(on: bool, weight: int) -> int {
    if on {
        weight
    } else {
        0
    }
}

impl ListeningModeCycle {
    /// Whether a mode is part of the cycle.
    pub open spec fn includes(self, mode: CycleMode) -> bool {
        match mode {
            CycleMode::Off => self.off,
            CycleMode::NoiseCancellation => self.noise_cancellation,
            CycleMode::Transparency => self.transparency,
            CycleMode::Adaptive => self.adaptive,
        }
    }

    /// The cycle with a mode added or taken out.
    pub open spec fn with(self, mode: CycleMode, on: bool) -> ListeningModeCycle {
        match mode {
            CycleMode::Off => ListeningModeCycle { off: on, ..self },
            CycleMode::NoiseCancellation => ListeningModeCycle { noise_cancellation: on, ..self },
            CycleMode::Transparency => ListeningModeCycle { transparency: on, ..self },
            CycleMode::Adaptive => ListeningModeCycle { adaptive: on, ..self },
        }
    }

    /// How many modes the cycle has.
    pub open spec fn size(self) -> int {
        flag(self.off, 1) + flag(self.noise_cancellation, 1) + flag(self.transparency, 1) + flag(
            self.adaptive,
            1,
        )
    }

    /// The cycle after a press on the switch of a mode. A mode that would
    /// leave fewer than two cannot be taken out.
    pub open spec fn flipped(self, mode: CycleMode) -> Option<ListeningModeCycle> {
        if self.includes(mode) && self.size() <= 2 {
            None
        } else {
            Some(self.with(mode, !self.includes(mode)))
        }
    }

    /// Whether a mode is part of the cycle.
    pub fn contains(self, mode: CycleMode) -> (yes: bool)
        ensures
            yes == self.includes(mode),
    {
        match mode {
            CycleMode::Off => self.off,
            CycleMode::NoiseCancellation => self.noise_cancellation,
            CycleMode::Transparency => self.transparency,
            CycleMode::Adaptive => self.adaptive,
        }
    }

    fn count(self) -> (n: u8)
        ensures
            n == self.size(),
    {
        let mut n: u8 = 0;
        if self.off {
            n = n + 1;
        }
        if self.noise_cancellation {
            n = n + 1;
        }
        if self.transparency {
            n = n + 1;
        }
        if self.adaptive {
            n = n + 1;
        }
        n
    }

    /// The cycle with the mode added or taken out, or None when that would
    /// leave fewer than two.
    pub fn toggled(self, mode: CycleMode) -> (next: Option<ListeningModeCycle>)
        ensures
            next == self.flipped(mode),
    {
        let on = self.contains(mode);
        if on && self.count() <= 2 {
            return None;
        }
        Some(
            match mode {
                CycleMode::Off => ListeningModeCycle { off: !on, ..self },
                CycleMode::NoiseCancellation => ListeningModeCycle {
                    noise_cancellation: !on,
                    ..self
                },
                CycleMode::Transparency => ListeningModeCycle { transparency: !on, ..self },
                CycleMode::Adaptive => ListeningModeCycle { adaptive: !on, ..self },
            },
        )
    }
}

impl ControlValue for ListeningModeCycle {
    open spec fn bytes(self) -> Seq<u8> {
        seq![
            (flag(self.off, 1) + flag(self.noise_cancellation, 2) + flag(self.transparency, 4)
                + flag(self.adaptive, 8)) as u8,
        ]
    }

    open spec fn decoded(value: Seq<u8>) -> Option<ListeningModeCycle> {
        match single_byte(value) {
            Some(b) => if b < 16 {
                Some(
                    ListeningModeCycle {
                        off: b % 2 == 1,
                        noise_cancellation: b / 2 % 2 == 1,
                        transparency: b / 4 % 2 == 1,
                        adaptive: b / 8 == 1,
                    },
                )
            } else {
                None
            },
            None => None,
        }
    }

    fn to_value(self) -> (value: Vec<u8>) {
        let mut byte: u8 = 0;
        if self.off {
            byte = byte + 1;
        }
        if self.noise_cancellation {
            byte = byte + 2;
        }
        if self.transparency {
            byte = byte + 4;
        }
        if self.adaptive {
            byte = byte + 8;
        }
        let value: Vec<u8> = vec![byte];
        proof {
            assert(value@ =~= self.bytes());
        }
        value
    }

    fn from_value(value: &[u8]) -> (decoded: Option<ListeningModeCycle>) {
        match single(value) {
            Some(b) => if b < 16 {
                Some(
                    ListeningModeCycle {
                        off: b % 2 == 1,
                        noise_cancellation: b / 2 % 2 == 1,
                        transparency: b / 4 % 2 == 1,
                        adaptive: b / 8 == 1,
                    },
                )
            } else {
                None
            },
            None => None,
        }
    }
}

/// Which press mutes during a call; the other one hangs up.
#[derive(Debug, Clone, Copy, PartialEq, Eq, Structural)]
pub enum CallControls {
    PressOnceToMute,
    PressTwiceToMute,
}

impl CallControls {
    /// The choices in menu order.
    pub fn all() -> (all: [CallControls; 2])
        ensures
            all@ == seq![CallControls::PressOnceToMute, CallControls::PressTwiceToMute],
    {
        [CallControls::PressOnceToMute, CallControls::PressTwiceToMute]
    }

    /// The press that mutes.
    pub fn label(self) -> (label: &'static str)
        ensures
            label@ == match self {
                CallControls::PressOnceToMute => "Press Once"@,
                CallControls::PressTwiceToMute => "Press Twice"@,
            },
    {
        match self {
            CallControls::PressOnceToMute => "Press Once",
            CallControls::PressTwiceToMute => "Press Twice",
        }
    }

    /// The text of the press that hangs up.
    pub open spec fn hang_up_text(self) -> Seq<char> {
        match self {
            CallControls::PressOnceToMute => "Press Twice"@,
            CallControls::PressTwiceToMute => "Press Once"@,
        }
    }

    /// The press that hangs up.
    pub fn hang_up_press(self) -> (text: &'static str)
        ensures
            text@ == self.hang_up_text(),
    {
        match self {
            CallControls::PressOnceToMute => "Press Twice",
            CallControls::PressTwiceToMute => "Press Once",
        }
    }
}

impl ControlValue for CallControls {
    open spec fn bytes(self) -> Seq<u8> {
        match self {
            CallControls::PressOnceToMute => seq![0x00u8, 0x03u8],
            CallControls::PressTwiceToMute => seq![0x00u8, 0x02u8],
        }
    }

    open spec fn decoded(value: Seq<u8>) -> Option<CallControls> {
        if value.len() != 2 || value[0] != 0x00 {
            None
        } else if value[1] == 0x03 {
            Some(CallControls::PressOnceToMute)
        } else if value[1] == 0x02 {
            Some(CallControls::PressTwiceToMute)
        } else {
            None
        }
    }

    fn to_value(self) -> (value: Vec<u8>) {
        let second: u8 = match self {
            CallControls::PressOnceToMute => 0x03,
            CallControls::PressTwiceToMute => 0x02,
        };
        let value: Vec<u8> = vec![0x00, second];
        proof {
            assert(value@ =~= self.bytes());
        }
        value
    }

    fn from_value(value: &[u8]) -> (decoded: Option<CallControls>) {
        if value.len() != 2 || value[0] != 0x00 {
            None
        } else if value[1] == 0x03 {
            Some(CallControls::PressOnceToMute)
        } else if value[1] == 0x02 {
            Some(CallControls::PressTwiceToMute)
        } else {
            None
        }
    }
}

/// Which bud records.
#[derive(Debug, Clone, Copy, PartialEq, Eq, Structural)]
pub enum MicMode {
    Automatic,
    AlwaysRight,
    AlwaysLeft,
}

impl MicMode {
    /// The choices in menu order.
    pub fn all() -> (all: [MicMode; 3])
        ensures
            all@ == seq![MicMode::Automatic, MicMode::AlwaysRight, MicMode::AlwaysLeft],
    {
        [MicMode::Automatic, MicMode::AlwaysRight, MicMode::AlwaysLeft]
    }

    /// The text of the menu entry.
    pub fn label(self) -> (label: &'static str)
        ensures
            label@ == match self {
                MicMode::Automatic => "Automatic"@,
                MicMode::AlwaysRight => "Always Right"@,
                MicMode::AlwaysLeft => "Always Left"@,
            },
    {
        match self {
            MicMode::Automatic => "Automatic",
            MicMode::AlwaysRight => "Always Right",
            MicMode::AlwaysLeft => "Always Left",
        }
    }
}

impl ControlValue for MicMode {
    open spec fn bytes(self) -> Seq<u8> {
        match self {
            MicMode::Automatic => seq![0x00u8],
            MicMode::AlwaysRight => seq![0x01u8],
            MicMode::AlwaysLeft => seq![0x02u8],
        }
    }

    open spec fn decoded(value: Seq<u8>) -> Option<MicMode> {
        match single_byte(value) {
            Some(b) => if b == 0x00 {
                Some(MicMode::Automatic)
            } else if b == 0x01 {
                Some(MicMode::AlwaysRight)
            } else if b == 0x02 {
                Some(MicMode::AlwaysLeft)
            } else {
                None
            },
            None => None,
        }
    }

    fn to_value(self) -> (value: Vec<u8>) {
        let byte: u8 = match self {
            MicMode::Automatic => 0x00,
            MicMode::AlwaysRight => 0x01,
            MicMode::AlwaysLeft => 0x02,
        };
        let value: Vec<u8> = vec![byte];
        proof {
            assert(value@ =~= self.bytes());
        }
        value
    }

    fn from_value(value: &[u8]) -> (decoded: Option<MicMode>) {
        match single(value) {
            Some(b) => if b == 0x00 {
                Some(MicMode::Automatic)
            } else if b == 0x01 {
                Some(MicMode::AlwaysRight)
            } else if b == 0x02 {
                Some(MicMode::AlwaysLeft)
            } else {
                None
            },
            None => None,
        }
    }
}

/// How slow presses may follow each other, or how long a hold takes.
#[derive(Debug, Clone, Copy, PartialEq, Eq, Structural)]
pub enum PressInterval {
    Default,
    Slower,
    Slowest,
}

impl PressInterval {
    /// The choices in menu order.
    pub fn all() -> (all: [PressInterval; 3])
        ensures
            all@ == seq![PressInterval::Default, PressInterval::Slower, PressInterval::Slowest],
    {
        [PressInterval::Default, PressInterval::Slower, PressInterval::Slowest]
    }

    /// The text of the menu entry.
    pub fn label(self) -> (label: &'static str)
        ensures
            label@ == match self {
                PressInterval::Default => "Default"@,
                PressInterval::Slower => "Slower"@,
                PressInterval::Slowest => "Slowest"@,
            },
    {
        match self {
            PressInterval::Default => "Default",
            PressInterval::Slower => "Slower",
            PressInterval::Slowest => "Slowest",
        }
    }
}

impl ControlValue for PressInterval {
    open spec fn bytes(self) -> Seq<u8> {
        match self {
            PressInterval::Default => seq![0x00u8],
            PressInterval::Slower => seq![0x01u8],
            PressInterval::Slowest => seq![0x02u8],
        }
    }

    open spec fn decoded(value: Seq<u8>) -> Option<PressInterval> {
        match single_byte(value) {
            Some(b) => if b == 0x00 {
                Some(PressInterval::Default)
            } else if b == 0x01 {
                Some(PressInterval::Slower)
            } else if b == 0x02 {
                Some(PressInterval::Slowest)
            } else {
                None
            },
            None => None,
        }
    }

    fn to_value(self) -> (value: Vec<u8>) {
        let byte: u8 = match self {
            PressInterval::Default => 0x00,
            PressInterval::Slower => 0x01,
            PressInterval::Slowest => 0x02,
        };
        let value: Vec<u8> = vec![byte];
        proof {
            assert(value@ =~= self.bytes());
        }
        value
    }

    fn from_value(value: &[u8]) -> (decoded: Option<PressInterval>) {
        match single(value) {
            Some(b) => if b == 0x00 {
                Some(PressInterval::Default)
            } else if b == 0x01 {
                Some(PressInterval::Slower)
            } else if b == 0x02 {
                Some(PressInterval::Slowest)
            } else {
                None
            },
            None => None,
        }
    }
}

/// How long to wait between two volume swipes.
#[derive(Debug, Clone, Copy, PartialEq, Eq, Structural)]
pub enum SwipeInterval {
    Default,
    Longer,
    Longest,
}

impl SwipeInterval {
    /// The choices in menu order.
    pub fn all() -> (all: [SwipeInterval; 3])
        ensures
            all@ == seq![SwipeInterval::Default, SwipeInterval::Longer, SwipeInterval::Longest],
    {
        [SwipeInterval::Default, SwipeInterval::Longer, SwipeInterval::Longest]
    }

    /// The text of the menu entry.
    pub fn label(self) -> (label: &'static str)
        ensures
            label@ == match self {
                SwipeInterval::Default => "Default"@,
                SwipeInterval::Longer => "Longer"@,
                SwipeInterval::Longest => "Longest"@,
            },
    {
        match self {
            SwipeInterval::Default => "Default",
            SwipeInterval::Longer => "Longer",
            SwipeInterval::Longest => "Longest",
        }
    }
}

impl ControlValue for SwipeInterval {
    open spec fn bytes(self) -> Seq<u8> {
        match self {
            SwipeInterval::Default => seq![0x01u8],
            SwipeInterval::Longer => seq![0x02u8],
            SwipeInterval::Longest => seq![0x03u8],
        }
    }

    open spec fn decoded(value: Seq<u8>) -> Option<SwipeInterval> {
        match single_byte(value) {
            Some(b) => if b == 0x01 {
                Some(SwipeInterval::Default)
            } else if b == 0x02 {
                Some(SwipeInterval::Longer)
            } else if b == 0x03 {
                Some(SwipeInterval::Longest)
            } else {
                None
            },
            None => None,
        }
    }

    fn to_value(self) -> (value: Vec<u8>) {
        let byte: u8 = match self {
            SwipeInterval::Default => 0x01,
            SwipeInterval::Longer => 0x02,
            SwipeInterval::Longest => 0x03,
        };
        let value: Vec<u8> = vec![byte];
        proof {
            assert(value@ =~= self.bytes());
        }
        value
    }

    fn from_value(value: &[u8]) -> (decoded: Option<SwipeInterval>) {
        match single(value) {
            Some(b) => if b == 0x01 {
                Some(SwipeInterval::Default)
            } else if b == 0x02 {
                Some(SwipeInterval::Longer)
            } else if b == 0x03 {
                Some(SwipeInterval::Longest)
            } else {
                None
            },
            None => None,
        }
    }
}

/// At most the highest percentage.
pub open spec fn capped_percent(p: u8) -> u8 {
    if p > PERCENT_MAX {
        PERCENT_MAX
    } else {
        p
    }
}

/// The volume of the sounds the AirPods make themselves.
#[derive(Debug, Clone, Copy, PartialEq, Eq, Structural)]
pub struct ChimeVolume {
    pub volume: u8,
}

impl ChimeVolume {
    /// A volume in percent, at most 100.
    pub fn new(percent: u8) -> (v: ChimeVolume)
        ensures
            v.volume == capped_percent(percent),
    {
        ChimeVolume {
            volume: if percent > PERCENT_MAX {
                PERCENT_MAX
            } else {
                percent
            },
        }
    }

    /// The volume in percent.
    pub fn percent(self) -> (p: u8)
        ensures
            p == self.volume,
    {
        self.volume
    }
}

impl ControlValue for ChimeVolume {
    open spec fn bytes(self) -> Seq<u8> {
        seq![self.volume, 0x50u8]
    }

    open spec fn decoded(value: Seq<u8>) -> Option<ChimeVolume> {
        if value.len() > 0 && value[0] <= PERCENT_MAX {
            Some(ChimeVolume { volume: value[0] })
        } else {
            None
        }
    }

    fn to_value(self) -> (value: Vec<u8>) {
        let value: Vec<u8> = vec![self.volume, 0x50];
        proof {
            assert(value@ =~= self.bytes());
        }
        value
    }

    fn from_value(value: &[u8]) -> (decoded: Option<ChimeVolume>) {
        if value.len() > 0 && value[0] <= PERCENT_MAX {
            Some(ChimeVolume { volume: value[0] })
        } else {
            None
        }
    }
}

/// How strongly Adaptive Audio cancels outside noise.
#[derive(Debug, Clone, Copy, PartialEq, Eq, Structural)]
pub struct AdaptiveStrength {
    pub level: u8,
}

impl AdaptiveStrength {
    /// A strength in percent, at most 100.
    pub fn new(percent: u8) -> (s: AdaptiveStrength)
        ensures
            s.level == capped_percent(percent),
    {
        AdaptiveStrength {
            level: if percent > PERCENT_MAX {
                PERCENT_MAX
            } else {
                percent
            },
        }
    }

    /// The strength in percent.
    pub fn strength(self) -> (p: u8)
        ensures
            p == self.level,
    {
        self.level
    }
}

impl ControlValue for AdaptiveStrength {
    open spec fn bytes(self) -> Seq<u8> {
        seq![self.level]
    }

    open spec fn decoded(value: Seq<u8>) -> Option<AdaptiveStrength> {
        match single_byte(value) {
            Some(b) => if b <= PERCENT_MAX {
                Some(AdaptiveStrength { level: b })
            } else {
                None
            },
            None => None,
        }
    }

    fn to_value(self) -> (value: Vec<u8>) {
        let value: Vec<u8> = vec![self.level];
        proof {
            assert(value@ =~= self.bytes());
        }
        value
    }

    fn from_value(value: &[u8]) -> (decoded: Option<AdaptiveStrength>) {
        match single(value) {
            Some(b) => if b <= PERCENT_MAX {
                Some(AdaptiveStrength { level: b })
            } else {
                None
            },
            None => None,
        }
    }
}

/// Every setting reads back from the bytes it is written as.
pub proof fn settings_read_back(
    toggle: Toggle,
    hold: ClickHoldMode,
    cycle: ListeningModeCycle,
    call: CallControls,
    mic: MicMode,
    press: PressInterval,
    swipe: SwipeInterval,
)
    ensures
        Toggle::decoded(toggle.bytes()) == Some(toggle),
        ClickHoldMode::decoded(hold.bytes()) == Some(hold),
        ListeningModeCycle::decoded(cycle.bytes()) == Some(cycle),
        CallControls::decoded(call.bytes()) == Some(call),
        MicMode::decoded(mic.bytes()) == Some(mic),
        PressInterval::decoded(press.bytes()) == Some(press),
        SwipeInterval::decoded(swipe.bytes()) == Some(swipe),
{
    assert(seq![0x01u8][0] != seq![0x02u8][0]);
}

/// The percentage settings read back from the bytes they are written as.
pub proof fn percentages_read_back(volume: ChimeVolume, strength: AdaptiveStrength)
    requires
        volume.volume <= PERCENT_MAX,
        strength.level <= PERCENT_MAX,
    ensures
        ChimeVolume::decoded(volume.bytes()) == Some(volume),
        AdaptiveStrength::decoded(strength.bytes()) == Some(strength),
{
}

/// What the bytes of each setting mean on the wire, for whatever bytes are
/// reported: a value is read from these bytes and from no others.
pub proof fn bytes_have_their_meaning(value: Seq<u8>)
    ensures
        Toggle::decoded(value) == Some(Toggle(true)) <==> value == seq![0x01u8],
        Toggle::decoded(value) == Some(Toggle(false)) <==> value == seq![0x02u8],
        CallControls::decoded(value) == Some(CallControls::PressOnceToMute) <==> value == seq![
            0x00u8,
            0x03u8,
        ],
        CallControls::decoded(value) == Some(CallControls::PressTwiceToMute) <==> value == seq![
            0x00u8,
            0x02u8,
        ],
        MicMode::decoded(value) == Some(MicMode::Automatic) <==> value == seq![0x00u8],
        MicMode::decoded(value) == Some(MicMode::AlwaysRight) <==> value == seq![0x01u8],
        MicMode::decoded(value) == Some(MicMode::AlwaysLeft) <==> value == seq![0x02u8],
        PressInterval::decoded(value) == Some(PressInterval::Default) <==> value == seq![0x00u8],
        PressInterval::decoded(value) == Some(PressInterval::Slower) <==> value == seq![0x01u8],
        PressInterval::decoded(value) == Some(PressInterval::Slowest) <==> value == seq![0x02u8],
        SwipeInterval::decoded(value) == Some(SwipeInterval::Default) <==> value == seq![0x01u8],
        SwipeInterval::decoded(value) == Some(SwipeInterval::Longer) <==> value == seq![0x02u8],
        SwipeInterval::decoded(value) == Some(SwipeInterval::Longest) <==> value == seq![0x03u8],
{
    assert(value.len() == 1 ==> value =~= seq![value[0]]);
    assert(value.len() == 2 ==> value =~= seq![value[0], value[1]]);
    assert(seq![0x00u8][0] == 0x00 && seq![0x01u8][0] == 0x01 && seq![0x02u8][0] == 0x02
        && seq![0x03u8][0] == 0x03);
    assert(seq![0x00u8, 0x03u8][1] == 0x03 && seq![0x00u8, 0x02u8][1] == 0x02);
    assert(seq![0x00u8, 0x03u8][0] == 0x00 && seq![0x00u8, 0x02u8][0] == 0x00);
}

/// The long press actions are two bytes, the right stem before the left: 1 for
/// noise control and 5 for Siri.
pub proof fn long_presses_are_right_then_left(value: Seq<u8>, mode: ClickHoldMode)
    requires
        ClickHoldMode::decoded(value) == Some(mode) || value == mode.bytes(),
    ensures
        value.len() == 2,
        value[0] == 0x01 <==> mode.right == ClickHoldAction::NoiseControl,
        value[0] == 0x05 <==> mode.right == ClickHoldAction::Siri,
        value[1] == 0x01 <==> mode.left == ClickHoldAction::NoiseControl,
        value[1] == 0x05 <==> mode.left == ClickHoldAction::Siri,
{
}

/// The press and hold cycle is one byte: bit 0 for Off, bit 1 for noise
/// cancellation, bit 2 for transparency and bit 3 for adaptive.
pub proof fn the_cycle_is_a_set_of_bits(cycle: ListeningModeCycle)
    ensures
        cycle.bytes().len() == 1,
        cycle.bytes()[0] < 16,
        cycle.bytes()[0] % 2 == 1 <==> cycle.includes(CycleMode::Off),
        cycle.bytes()[0] / 2 % 2 == 1 <==> cycle.includes(CycleMode::NoiseCancellation),
        cycle.bytes()[0] / 4 % 2 == 1 <==> cycle.includes(CycleMode::Transparency),
        cycle.bytes()[0] / 8 == 1 <==> cycle.includes(CycleMode::Adaptive),
        cycle.off == cycle.includes(CycleMode::Off),
        cycle.noise_cancellation == cycle.includes(CycleMode::NoiseCancellation),
        cycle.transparency == cycle.includes(CycleMode::Transparency),
        cycle.adaptive == cycle.includes(CycleMode::Adaptive),
{
}

/// A press on the switch of a mode adds it or takes it out, and leaves every
/// other mode as it was. It is refused exactly where the mode is one of two or
/// fewer that are left.
pub proof fn a_press_changes_one_mode_of_the_cycle(
    cycle: ListeningModeCycle,
    mode: CycleMode,
    other: CycleMode,
)
    ensures
        cycle.flipped(mode) is None <==> cycle.includes(mode) && cycle.size() <= 2,
        cycle.flipped(mode) matches Some(next) ==> {
            &&& next.includes(mode) == !cycle.includes(mode)
            &&& other != mode ==> next.includes(other) == cycle.includes(other)
            &&& cycle.includes(mode) ==> next.size() == cycle.size() - 1
            &&& !cycle.includes(mode) ==> next.size() == cycle.size() + 1
            &&& next.size() >= 2 || cycle.size() == 0
        },
        0 <= cycle.size() <= 4,
        cycle.size() == 4 <==> (cycle.off && cycle.noise_cancellation && cycle.transparency
            && cycle.adaptive),
{
}

/// Volumes and strengths are sent as their percentage, the volume with a
/// second byte of 0x50, and are read from a first byte of at most 100. A
/// percentage above 100 is sent as 100.
pub proof fn percentages_are_sent_as_they_are(
    value: Seq<u8>,
    percent: u8,
    volume: ChimeVolume,
    strength: AdaptiveStrength,
)
    ensures
        volume.bytes() == seq![volume.volume, 0x50u8],
        strength.bytes() == seq![strength.level],
        ChimeVolume::decoded(value) is Some <==> (value.len() > 0 && value[0] <= 100),
        ChimeVolume::decoded(value) is Some ==> ChimeVolume::decoded(value)->0.volume == value[0],
        AdaptiveStrength::decoded(value) is Some <==> (value.len() == 1 && value[0] <= 100),
        AdaptiveStrength::decoded(value) is Some ==> AdaptiveStrength::decoded(value)->0.level
            == value[0],
        percent <= 100 ==> capped_percent(percent) == percent,
        percent > 100 ==> capped_percent(percent) == 100,
{
}

/// Muting and hanging up are never on the same press.
pub proof fn muting_and_hanging_up_are_apart()
    ensures
        CallControls::PressOnceToMute.hang_up_text() == "Press Twice"@,
        CallControls::PressTwiceToMute.hang_up_text() == "Press Once"@,
{
}

} // verus!
