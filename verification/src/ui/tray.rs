//! The tray icon: what it shows, its menu, and what its entries do.

use crate::bluetooth::aacp::{BatteryStatus, ControlCommandIdentifiers};
use crate::devices::enums::AirPodsNoiseControlMode;
use crate::text::{decimal_text, joined, joined3};
use crate::ui::messages::BluetoothUIMessage;
use crate::ui::tray_icon::Rgba;
use vstd::prelude::*;

verus! {

/// What the tray knows of the connected device.
#[derive(Debug, Clone, Copy)]
pub struct MyTray {
    pub conversation_detect_enabled: Option<bool>,
    pub battery_headphone: Option<u8>,
    pub battery_headphone_status: Option<BatteryStatus>,
    pub battery_l: Option<u8>,
    pub battery_l_status: Option<BatteryStatus>,
    pub battery_r: Option<u8>,
    pub battery_r_status: Option<BatteryStatus>,
    pub battery_c: Option<u8>,
    pub battery_c_status: Option<BatteryStatus>,
    pub connected: bool,
    pub listening_mode: Option<u8>,
    pub allow_off_option: Option<u8>,
}

/// What an entry of the menu asks for.
#[derive(Debug, Clone)]
pub enum TrayRequest {
    /// Tell the user interface.
    Ui(BluetoothUIMessage),
    /// Send a control command to the AirPods.
    Command(ControlCommandIdentifiers, Vec<u8>),
    /// Shut the program down.
    Shutdown,
    /// End the process, as nothing listens for a shutdown.
    ExitProcess,
}

/// The mathematical content of a `TrayRequest`.
#[verifier::ext_equal]
pub enum TrayRequestView {
    Ui(BluetoothUIMessage),
    Command(ControlCommandIdentifiers, Seq<u8>),
    Shutdown,
    ExitProcess,
}

impl View for TrayRequest {
    type V = TrayRequestView;

    open spec fn view(&self) -> TrayRequestView {
        match *self {
            TrayRequest::Ui(message) => TrayRequestView::Ui(message),
            TrayRequest::Command(id, value) => TrayRequestView::Command(id, value@),
            TrayRequest::Shutdown => TrayRequestView::Shutdown,
            TrayRequest::ExitProcess => TrayRequestView::ExitProcess,
        }
    }
}

/// The view of a request that may be missing.
pub open spec fn request_view(request: Option<TrayRequest>) -> Option<TrayRequestView> {
    match request {
        Some(r) => Some(r@),
        None => None,
    }
}

/// What happens when an entry of the menu is chosen.
#[derive(Debug, Clone, Copy, PartialEq, Eq, Structural)]
pub enum TrayAction {
    OpenWindow,
    ConnectAirPods,
    ToggleConversationDetection,
    Exit,
}

/// An entry of the menu.
#[derive(Debug, Clone)]
pub enum TrayItem {
    Standard {
        label: &'static str,
        icon_name: &'static str,
        enabled: bool,
        action: TrayAction,
    },
    /// The listening modes with their bytes, one of them selected.
    Modes { options: Vec<(&'static str, u8)>, selected: usize },
    Separator,
    Checkmark { label: &'static str, checked: bool, enabled: bool, action: TrayAction },
}

/// The mathematical content of a `TrayItem`.
#[verifier::ext_equal]
pub enum TrayItemView {
    Standard { label: Seq<char>, icon_name: Seq<char>, enabled: bool, action: TrayAction },
    Modes { options: Seq<(Seq<char>, u8)>, selected: int },
    Separator,
    Checkmark { label: Seq<char>, checked: bool, enabled: bool, action: TrayAction },
}

/// The texts and bytes of some options.
pub open spec fn options_view(options: Seq<(&'static str, u8)>) -> Seq<(Seq<char>, u8)> {
    options.map_values(|o: (&'static str, u8)| (o.0@, o.1))
}

impl View for TrayItem {
    type V = TrayItemView;

    open spec fn view(&self) -> TrayItemView {
        match *self {
            TrayItem::Standard { label, icon_name, enabled, action } => TrayItemView::Standard {
                label: label@,
                icon_name: icon_name@,
                enabled,
                action,
            },
            TrayItem::Modes { options, selected } => TrayItemView::Modes {
                options: options_view(options@),
                selected: selected as int,
            },
            TrayItem::Separator => TrayItemView::Separator,
            TrayItem::Checkmark { label, checked, enabled, action } => TrayItemView::Checkmark {
                label: label@,
                checked,
                enabled,
                action,
            },
        }
    }
}

/// A level worth drawing: reported, in range and not flagged as disconnected.
pub open spec fn level_worth_drawing(level: Option<u8>, status: Option<BatteryStatus>) -> Option<
    u8,
> {
    match level {
        Some(l) => if l <= 100 && status != Some(BatteryStatus::Disconnected) {
            Some(l)
        } else {
            None
        },
        None => None,
    }
}

/// A level worth drawing: reported, in range and not flagged as disconnected.
pub fn known_level(level: Option<u8>, status: Option<BatteryStatus>) -> (known: Option<u8>)
    ensures
        known == level_worth_drawing(level, status),
{
    let disconnected = match status {
        Some(BatteryStatus::Disconnected) => true,
        _ => false,
    };
    match level {
        Some(l) => if l <= 100 && !disconnected {
            Some(l)
        } else {
            None
        },
        None => None,
    }
}

/// Whether a status that may be missing says charging.
pub open spec fn says_charging(status: Option<BatteryStatus>) -> bool {
    match status {
        Some(s) => s.charges(),
        None => false,
    }
}

fn is_charging(status: Option<BatteryStatus>) -> (yes: bool)
    ensures
        yes == says_charging(status),
{
    match status {
        Some(s) => s.is_charging(),
        None => false,
    }
}

/// The text of a battery.
pub open spec fn battery_line(level: Option<u8>, status: Option<BatteryStatus>) -> Seq<char> {
    match level_worth_drawing(level, status) {
        Some(l) => crate::text::decimal(l as nat) + "%"@ + if says_charging(status) {
            "⚡"@
        } else {
            ""@
        },
        None => "-"@,
    }
}

/// "80%" with a charging mark, or "-" when the level is unknown.
pub fn battery_text(level: Option<u8>, status: Option<BatteryStatus>) -> (text: String)
    ensures
        text@ == battery_line(level, status),
{
    match known_level(level, status) {
        Some(l) => {
            let mark = if is_charging(status) {
                "⚡"
            } else {
                ""
            };
            joined3(decimal_text(l as u64).as_str(), "%", mark)
        },
        None => "-".to_string(),
    }
}

/// The lower of two levels that may be missing.
pub open spec fn lower_level(a: Option<u8>, b: Option<u8>) -> Option<u8> {
    match (a, b) {
        (Some(x), Some(y)) => Some(
            if x <= y {
                x
            } else {
                y
            },
        ),
        (Some(x), None) => Some(x),
        (None, other) => other,
    }
}

impl MyTray {
    /// The device has one battery.
    pub open spec fn one_battery(self) -> bool {
        self.battery_headphone is Some || self.battery_headphone_status is Some
    }

    /// The level the icon shows.
    pub open spec fn shown_level(self) -> Option<u8> {
        if self.one_battery() {
            level_worth_drawing(self.battery_headphone, self.battery_headphone_status)
        } else {
            lower_level(
                level_worth_drawing(self.battery_l, self.battery_l_status),
                level_worth_drawing(self.battery_r, self.battery_r_status),
            )
        }
    }

    /// Whether something other than the case charges.
    pub open spec fn charges(self) -> bool {
        says_charging(self.battery_headphone_status) || says_charging(self.battery_l_status)
            || says_charging(self.battery_r_status)
    }

    /// The batteries in one line.
    pub open spec fn description(self) -> Seq<char> {
        if self.one_battery() {
            "Battery: "@ + battery_line(self.battery_headphone, self.battery_headphone_status)
        } else {
            "L: "@ + battery_line(self.battery_l, self.battery_l_status) + " R: "@ + battery_line(
                self.battery_r,
                self.battery_r_status,
            ) + " C: "@ + battery_line(self.battery_c, self.battery_c_status)
        }
    }

    /// The listening modes to choose from. Off only where it is allowed.
    pub open spec fn mode_options(self) -> Seq<(Seq<char>, u8)> {
        let modes = seq![
            ("Noise Cancellation"@, 0x02u8),
            ("Transparency"@, 0x03u8),
            ("Adaptive"@, 0x04u8),
        ];
        if self.allow_off_option == Some(0x01u8) {
            seq![("Off"@, 0x01u8)] + modes
        } else {
            modes
        }
    }

    /// The place of the current listening mode among the options; the first
    /// one where it is unknown or not offered.
    pub open spec fn selected_mode(self) -> int {
        let first = if self.allow_off_option == Some(0x01u8) {
            0x01int
        } else {
            0x02
        };
        match self.listening_mode {
            Some(mode) => if first <= mode <= 0x04 {
                mode - first
            } else {
                0
            },
            None => 0,
        }
    }

    /// The menu.
    pub open spec fn menu_shown(self) -> Seq<TrayItemView> {
        seq![
            TrayItemView::Standard {
                label: "Open Window"@,
                icon_name: "window-new"@,
                enabled: true,
                action: TrayAction::OpenWindow,
            },
            TrayItemView::Standard {
                label: "Connect AirPods to this PC"@,
                icon_name: "bluetooth-active"@,
                enabled: !self.connected,
                action: TrayAction::ConnectAirPods,
            },
            TrayItemView::Modes { options: self.mode_options(), selected: self.selected_mode() },
            TrayItemView::Separator,
            TrayItemView::Checkmark {
                label: "Conversation Detection"@,
                checked: self.conversation_detect_enabled == Some(true),
                enabled: self.conversation_detect_enabled is Some,
                action: TrayAction::ToggleConversationDetection,
            },
            TrayItemView::Standard {
                label: "Exit"@,
                icon_name: "application-exit"@,
                enabled: true,
                action: TrayAction::Exit,
            },
        ]
    }

    /// What an entry of the menu asks for.
    pub open spec fn asked(self, action: TrayAction, takes_commands: bool, takes_shutdown: bool)
        -> Option<TrayRequestView> {
        match action {
            TrayAction::OpenWindow => Some(TrayRequestView::Ui(BluetoothUIMessage::OpenWindow)),
            TrayAction::ConnectAirPods => Some(
                TrayRequestView::Ui(BluetoothUIMessage::ConnectAirPods),
            ),
            TrayAction::ToggleConversationDetection => match self.conversation_detect_enabled {
                Some(enabled) => if takes_commands {
                    Some(
                        TrayRequestView::Command(
                            ControlCommandIdentifiers::ConversationDetectConfig,
                            seq![crate::bluetooth::settings::switch_byte(!enabled)],
                        ),
                    )
                } else {
                    None
                },
                None => None,
            },
            TrayAction::Exit => Some(
                if takes_shutdown {
                    TrayRequestView::Shutdown
                } else {
                    TrayRequestView::ExitProcess
                },
            ),
        }
    }

    /// The tray after an entry of the menu was chosen.
    pub open spec fn performed(self, action: TrayAction, takes_commands: bool) -> MyTray {
        MyTray {
            conversation_detect_enabled: match (action, self.conversation_detect_enabled) {
                (TrayAction::ToggleConversationDetection, Some(enabled)) => Some(
                    enabled != takes_commands,
                ),
                (_, as_it_is) => as_it_is,
            },
            ..self
        }
    }

    /// The command for a listening mode of the menu.
    pub open spec fn mode_command(self, at: int) -> TrayRequestView {
        TrayRequestView::Command(
            ControlCommandIdentifiers::ListeningMode,
            seq![
                if at < self.mode_options().len() {
                    self.mode_options()[at].1
                } else {
                    0x02u8
                },
            ],
        )
    }

    fn is_headphone(&self) -> (yes: bool)
        ensures
            yes == self.one_battery(),
    {
        self.battery_headphone.is_some() || self.battery_headphone_status.is_some()
    }

    /// The level the icon shows: the headphone level, or the lower of the two
    /// buds. None when nothing reports a usable level.
    pub fn icon_level(&self) -> (level: Option<u8>)
        ensures
            level == self.shown_level(),
    {
        if self.is_headphone() {
            return known_level(self.battery_headphone, self.battery_headphone_status);
        }
        let left = known_level(self.battery_l, self.battery_l_status);
        let right = known_level(self.battery_r, self.battery_r_status);
        match (left, right) {
            (Some(x), Some(y)) => if x <= y {
                Some(x)
            } else {
                Some(y)
            },
            (Some(x), None) => Some(x),
            (None, other) => other,
        }
    }

    /// Whether a bud or the headphones charge.
    pub fn any_bud_charging(&self) -> (yes: bool)
        ensures
            yes == self.charges(),
    {
        is_charging(self.battery_headphone_status) || is_charging(self.battery_l_status)
            || is_charging(self.battery_r_status)
    }

    /// The batteries in one line, for the tool tip.
    pub fn battery_description(&self) -> (text: String)
        ensures
            text@ == self.description(),
    {
        if self.is_headphone() {
            return joined(
                "Battery: ",
                battery_text(self.battery_headphone, self.battery_headphone_status).as_str(),
            );
        }
        let left = joined("L: ", battery_text(self.battery_l, self.battery_l_status).as_str());
        let right = joined3(
            left.as_str(),
            " R: ",
            battery_text(self.battery_r, self.battery_r_status).as_str(),
        );
        joined3(
            right.as_str(),
            " C: ",
            battery_text(self.battery_c, self.battery_c_status).as_str(),
        )
    }

    fn modes(&self) -> (options: Vec<(&'static str, u8)>)
        ensures
            options_view(options@) == self.mode_options(),
    {
        let allow_off = match self.allow_off_option {
            Some(byte) => byte == 0x01,
            None => false,
        };
        let options: Vec<(&'static str, u8)> = if allow_off {
            vec![
                ("Off", 0x01),
                ("Noise Cancellation", 0x02),
                ("Transparency", 0x03),
                ("Adaptive", 0x04),
            ]
        } else {
            vec![("Noise Cancellation", 0x02), ("Transparency", 0x03), ("Adaptive", 0x04)]
        };
        proof {
            assert(options_view(options@) =~= self.mode_options());
        }
        options
    }

    fn selected(&self, options: &Vec<(&'static str, u8)>) -> (at: usize)
        requires
            options_view(options@) == self.mode_options(),
        ensures
            at == self.selected_mode(),
    {
        let mode: u8 = match self.listening_mode {
            Some(mode) => mode,
            None => {
                return 0;
            },
        };
        let mut i: usize = 0;
        proof {
            assert(options@.len() == self.mode_options().len());
            assert forall|j: int| 0 <= j < options@.len() implies (#[trigger] options@[j]).1
                == self.mode_options()[j].1 by {
                assert(options_view(options@)[j] == self.mode_options()[j]);
            }
        }
        while i < options.len()
            invariant
                i <= options@.len(),
                self.listening_mode == Some(mode),
                options@.len() == self.mode_options().len(),
                forall|j: int|
                    0 <= j < options@.len() ==> (#[trigger] options@[j]).1
                        == self.mode_options()[j].1,
                forall|j: int| 0 <= j < i ==> (#[trigger] options@[j]).1 != mode,
            decreases options@.len() - i,
        {
            if options[i].1 == mode {
                return i;
            }
            i = i + 1;
        }
        proof {
            let at = self.selected_mode();
            if at != 0 || (self.mode_options()[0].1 == mode) {
                assert(options@[at].1 == mode);
            }
        }
        0
    }

    /// The menu of the tray icon.
    pub fn menu(&self) -> (items: Vec<TrayItem>)
        ensures
            items@.map_values(|item: TrayItem| item@) == self.menu_shown(),
    {
        let options = self.modes();
        let selected: usize = self.selected(&options);
        let checked = match self.conversation_detect_enabled {
            Some(enabled) => enabled,
            None => false,
        };
        let items: Vec<TrayItem> = vec![
            TrayItem::Standard {
                label: "Open Window",
                icon_name: "window-new",
                enabled: true,
                action: TrayAction::OpenWindow,
            },
            TrayItem::Standard {
                label: "Connect AirPods to this PC",
                icon_name: "bluetooth-active",
                enabled: !self.connected,
                action: TrayAction::ConnectAirPods,
            },
            TrayItem::Modes { options, selected },
            TrayItem::Separator,
            TrayItem::Checkmark {
                label: "Conversation Detection",
                checked,
                enabled: self.conversation_detect_enabled.is_some(),
                action: TrayAction::ToggleConversationDetection,
            },
            TrayItem::Standard {
                label: "Exit",
                icon_name: "application-exit",
                enabled: true,
                action: TrayAction::Exit,
            },
        ];
        proof {
            assert(items@.map_values(|item: TrayItem| item@) =~= self.menu_shown());
        }
        items
    }

    /// A click on the icon opens the window.
    pub fn activate(&self, x: i32, y: i32) -> (request: TrayRequest)
        ensures
            request == TrayRequest::Ui(BluetoothUIMessage::OpenWindow),
    {
        TrayRequest::Ui(BluetoothUIMessage::OpenWindow)
    }

    /// What an entry of the menu asks for. Commands need someone to take
    /// them: without, conversation detection stays as it is. The process ends
    /// only where nothing takes the shutdown.
    pub fn perform(&mut self, action: TrayAction, takes_commands: bool, takes_shutdown: bool) -> (
        request: Option<TrayRequest>)
        ensures
            *final(self) == (MyTray {
                conversation_detect_enabled: match (
                    action,
                    old(self).conversation_detect_enabled,
                ) {
                    (TrayAction::ToggleConversationDetection, Some(enabled)) => Some(
                        enabled != takes_commands,
                    ),
                    (_, as_it_is) => as_it_is,
                },
                ..*old(self)
            }),
            match action {
                TrayAction::OpenWindow => request == Some(
                    TrayRequest::Ui(BluetoothUIMessage::OpenWindow),
                ),
                TrayAction::ConnectAirPods => request == Some(
                    TrayRequest::Ui(BluetoothUIMessage::ConnectAirPods),
                ),
                TrayAction::ToggleConversationDetection => match (
                    old(self).conversation_detect_enabled,
                    takes_commands,
                ) {
                    (Some(enabled), true) => request matches Some(
                        TrayRequest::Command(id, value),
                    ) && id == ControlCommandIdentifiers::ConversationDetectConfig && value@
                        == seq![crate::bluetooth::settings::switch_byte(!enabled)],
                    _ => request is None,
                },
                TrayAction::Exit => request == Some(
                    if takes_shutdown {
                        TrayRequest::Shutdown
                    } else {
                        TrayRequest::ExitProcess
                    },
                ),
            },
            request_view(request) == old(self).asked(action, takes_commands, takes_shutdown),
            *final(self) == old(self).performed(action, takes_commands),
    {
        match action {
            TrayAction::OpenWindow => Some(TrayRequest::Ui(BluetoothUIMessage::OpenWindow)),
            TrayAction::ConnectAirPods => Some(
                TrayRequest::Ui(BluetoothUIMessage::ConnectAirPods),
            ),
            TrayAction::ToggleConversationDetection => {
                if !takes_commands {
                    return None;
                }
                match self.conversation_detect_enabled {
                    Some(enabled) => {
                        let byte: u8 = if enabled {
                            0x02
                        } else {
                            0x01
                        };
                        self.conversation_detect_enabled = Some(!enabled);
                        let value: Vec<u8> = vec![byte];
                        proof {
                            assert(value@ =~= seq![
                                crate::bluetooth::settings::switch_byte(!enabled),
                            ]);
                        }
                        Some(
                            TrayRequest::Command(
                                ControlCommandIdentifiers::ConversationDetectConfig,
                                value,
                            ),
                        )
                    },
                    None => None,
                }
            },
            TrayAction::Exit => if takes_shutdown {
                Some(TrayRequest::Shutdown)
            } else {
                Some(TrayRequest::ExitProcess)
            },
        }
    }

    /// The command for a listening mode of the menu. A place that is not in
    /// the menu counts as noise cancellation.
    pub fn select_mode(&self, at: usize) -> (request: TrayRequest)
        ensures
            request matches TrayRequest::Command(id, value) && id
                == ControlCommandIdentifiers::ListeningMode && value@ == seq![
                if at < self.mode_options().len() {
                    self.mode_options()[at as int].1
                } else {
                    0x02u8
                },
            ],
            request@ == self.mode_command(at as int),
    {
        let options = self.modes();
        let byte: u8 = if at < options.len() {
            proof {
                assert(options_view(options@)[at as int] == self.mode_options()[at as int]);
            }
            options[at].1
        } else {
            0x02
        };
        let value: Vec<u8> = vec![byte];
        proof {
            assert(options_view(options@).len() == self.mode_options().len());
            assert(value@ =~= seq![
                if at < self.mode_options().len() {
                    self.mode_options()[at as int].1
                } else {
                    0x02u8
                },
            ]);
        }
        TrayRequest::Command(ControlCommandIdentifiers::ListeningMode, value)
    }
}

/// A bud that is out of reach never sets the level of the icon, and no level
/// over 100 is shown.
pub proof fn the_icon_shows_known_levels(tray: MyTray)
    ensures
        tray.shown_level() matches Some(l) ==> l <= 100,
        !tray.one_battery() && tray.battery_l_status == Some(BatteryStatus::Disconnected)
            ==> tray.shown_level() == level_worth_drawing(tray.battery_r, tray.battery_r_status),
        !tray.one_battery() && tray.battery_r_status == Some(BatteryStatus::Disconnected)
            ==> tray.shown_level() == level_worth_drawing(tray.battery_l, tray.battery_l_status),
{
}

/// The selected entry of the menu is the current listening mode wherever it
/// is offered.
pub proof fn the_menu_marks_the_current_mode(tray: MyTray, at: int)
    requires
        0 <= at < tray.mode_options().len(),
        tray.listening_mode == Some(tray.mode_options()[at].1),
    ensures
        tray.selected_mode() == at,
{
}

/// Of two buds whose levels can both be drawn the icon shows the lower one: it
/// is the level of one of them and above neither.
pub proof fn the_icon_shows_the_lower_bud(tray: MyTray, left: u8, right: u8)
    requires
        tray.battery_headphone is None,
        tray.battery_headphone_status is None,
        tray.battery_l == Some(left),
        left <= 100,
        tray.battery_l_status != Some(BatteryStatus::Disconnected),
        tray.battery_r == Some(right),
        right <= 100,
        tray.battery_r_status != Some(BatteryStatus::Disconnected),
    ensures
        tray.shown_level() == Some(left) || tray.shown_level() == Some(right),
        tray.shown_level()->0 <= left,
        tray.shown_level()->0 <= right,
{
}

/// A level is drawn exactly if it was reported, is at most 100 and is not of a
/// part that is out of reach, and it is drawn as it was reported.
pub proof fn only_usable_levels_are_drawn(level: Option<u8>, status: Option<BatteryStatus>)
    ensures
        level_worth_drawing(level, status) is Some <==> (level is Some && level->0 <= 100 && (status
            is None || status->0 is Charging || status->0 is NotCharging
            || status->0 is OptimizedCharging)),
        level_worth_drawing(level, status) is Some ==> level_worth_drawing(level, status) == level,
{
}

/// With one bud out of reach the icon shows the other one, with both it shows
/// nothing, and the case never sets it. Headphones show their own level, also
/// where that is unknown, whatever the buds say.
pub proof fn the_icon_follows_the_parts_that_are_there(tray: MyTray)
    ensures
        ({
            let usable_l = tray.battery_l is Some && tray.battery_l->0 <= 100
                && tray.battery_l_status != Some(BatteryStatus::Disconnected);
            let usable_r = tray.battery_r is Some && tray.battery_r->0 <= 100
                && tray.battery_r_status != Some(BatteryStatus::Disconnected);
            let headphones = tray.battery_headphone is Some || tray.battery_headphone_status is Some;
            let usable_h = tray.battery_headphone is Some && tray.battery_headphone->0 <= 100
                && tray.battery_headphone_status != Some(BatteryStatus::Disconnected);
            &&& !headphones && usable_l && !usable_r ==> tray.shown_level() == tray.battery_l
            &&& !headphones && usable_r && !usable_l ==> tray.shown_level() == tray.battery_r
            &&& !headphones && !usable_l && !usable_r ==> tray.shown_level() is None
            &&& headphones && usable_h ==> tray.shown_level() == tray.battery_headphone
            &&& headphones && !usable_h ==> tray.shown_level() is None
        }),
        tray.charges() <==> exists|status: BatteryStatus|
            (status is Charging || status is OptimizedCharging) && (
            tray.battery_headphone_status == Some(status) || tray.battery_l_status == Some(status)
                || tray.battery_r_status == Some(status)),
{
    if tray.charges() {
        let status = if says_charging(tray.battery_headphone_status) {
            tray.battery_headphone_status->0
        } else if says_charging(tray.battery_l_status) {
            tray.battery_l_status->0
        } else {
            tray.battery_r_status->0
        };
        assert(status is Charging || status is OptimizedCharging);
    }
}

/// The text of a battery reads back as its level: the number, a percent sign,
/// and a bolt exactly while it charges. A level that cannot be drawn is a
/// dash.
pub proof fn battery_texts_read_back(level: u8, status: Option<BatteryStatus>)
    requires
        level <= 100,
        status != Some(BatteryStatus::Disconnected),
    ensures
        ({
            let text = battery_line(Some(level), status);
            let charging = status == Some(BatteryStatus::Charging) || status == Some(
                BatteryStatus::OptimizedCharging,
            );
            let sign = text.len() - (if charging {
                2int
            } else {
                1
            });
            &&& sign > 0
            &&& crate::text::number_of(text.take(sign)) == level
            &&& text[sign] == '%'
            &&& charging ==> text.last() == '\u{26A1}'
        }),
        battery_line(None, status) == seq!['-'],
        battery_line(Some(level), Some(BatteryStatus::Disconnected)) == seq!['-'],
{
    reveal_strlit("%");
    reveal_strlit("⚡");
    reveal_strlit("");
    reveal_strlit("-");
    crate::text::decimals_read_back(level as nat);
    let text = battery_line(Some(level), status);
    let digits = crate::text::decimal(level as nat);
    assert(text.take(digits.len() as int) =~= digits);
    assert(battery_line(None, status) =~= seq!['-']);
    assert(battery_line(Some(level), Some(BatteryStatus::Disconnected)) =~= seq!['-']);
}

/// The tool tip names each part before its text: left, right and case, or one
/// battery for headphones.
pub proof fn the_tool_tip_names_the_parts(tray: MyTray)
    ensures
        tray.battery_headphone is None && tray.battery_headphone_status is None
            ==> tray.description() == "L: "@ + battery_line(tray.battery_l, tray.battery_l_status)
            + " R: "@ + battery_line(tray.battery_r, tray.battery_r_status) + " C: "@
            + battery_line(tray.battery_c, tray.battery_c_status),
        tray.battery_headphone is Some || tray.battery_headphone_status is Some
            ==> tray.description() == "Battery: "@ + battery_line(
            tray.battery_headphone,
            tray.battery_headphone_status,
        ),
{
}

/// The menu offers each listening mode under its name with its byte, Off only
/// where the AirPods allow it, and choosing an entry sends its byte.
pub proof fn the_menu_offers_the_listening_modes(tray: MyTray, mode: AirPodsNoiseControlMode)
    ensures
        ({
            let entry = (
                crate::devices::enums::listening_label(mode),
                crate::devices::enums::listening_byte(mode),
            );
            let offered = mode != AirPodsNoiseControlMode::Off || tray.allow_off_option == Some(
                0x01u8,
            );
            &&& offered <==> tray.mode_options().contains(entry)
            &&& offered ==> exists|at: int|
                0 <= at < tray.mode_options().len() && #[trigger] tray.mode_command(at)
                    == TrayRequestView::Command(
                    ControlCommandIdentifiers::ListeningMode,
                    seq![crate::devices::enums::listening_byte(mode)],
                ) && tray.mode_options()[at] == entry
        }),
        tray.mode_options().len() == (if tray.allow_off_option == Some(0x01u8) {
            4int
        } else {
            3
        }),
        forall|at: int| at >= tray.mode_options().len() ==> #[trigger] tray.mode_command(at)
            == TrayRequestView::Command(ControlCommandIdentifiers::ListeningMode, seq![0x02u8]),
{
    let options = tray.mode_options();
    let entry = (
        crate::devices::enums::listening_label(mode),
        crate::devices::enums::listening_byte(mode),
    );
    let first = if tray.allow_off_option == Some(0x01u8) {
        1int
    } else {
        2
    };
    let at = crate::devices::enums::listening_byte(mode) - first;
    if at >= 0 {
        assert(options[at] == entry);
        assert(tray.mode_command(at) == TrayRequestView::Command(
            ControlCommandIdentifiers::ListeningMode,
            seq![crate::devices::enums::listening_byte(mode)],
        ));
    } else {
        assert forall|i: int| 0 <= i < options.len() implies options[i] != entry by {
            assert(options[i].1 != 0x01);
        }
    }
}

/// What the entries of the menu can do: connecting only while nothing is
/// connected, conversation detection only where its state is known, with a
/// mark exactly while it is on.
pub proof fn the_menu_follows_the_airpods(tray: MyTray)
    ensures
        tray.menu_shown().len() == 6,
        tray.menu_shown()[0] matches TrayItemView::Standard { action, enabled, .. } && action
            == TrayAction::OpenWindow && enabled,
        tray.menu_shown()[1] matches TrayItemView::Standard { action, enabled, .. } && action
            == TrayAction::ConnectAirPods && enabled != tray.connected,
        tray.menu_shown()[2] matches TrayItemView::Modes { options, selected } && 0 <= selected
            < options.len(),
        tray.menu_shown()[4] matches TrayItemView::Checkmark { action, enabled, checked, .. }
            && action == TrayAction::ToggleConversationDetection && (enabled <==>
            tray.conversation_detect_enabled is Some) && (checked <==>
            tray.conversation_detect_enabled == Some(true)),
        tray.menu_shown()[5] matches TrayItemView::Standard { action, enabled, .. } && action
            == TrayAction::Exit && enabled,
{
}

/// Choosing conversation detection turns it into its opposite, tells the
/// AirPods so, 1 for on and 2 for off, and choosing it again turns it back.
/// Without anyone to take the command it stays as it is and nothing is asked.
pub proof fn conversation_detection_is_turned_around(tray: MyTray, on: bool, takes_shutdown: bool)
    requires
        tray.conversation_detect_enabled == Some(on),
    ensures
        ({
            let action = TrayAction::ToggleConversationDetection;
            let turned = tray.performed(action, true);
            &&& turned.conversation_detect_enabled == Some(!on)
            &&& turned.performed(action, true) == tray
            &&& tray.asked(action, true, takes_shutdown) == Some(
                TrayRequestView::Command(
                    ControlCommandIdentifiers::ConversationDetectConfig,
                    seq![
                        if on {
                            0x02u8
                        } else {
                            0x01u8
                        },
                    ],
                ),
            )
            &&& tray.performed(action, false) == tray
            &&& tray.asked(action, false, takes_shutdown) is None
        }),
{
}

/// The other entries change nothing of the tray and ask for what they say; the
/// process ends only where nothing takes the shutdown.
pub proof fn entries_ask_for_what_they_say(tray: MyTray, takes_commands: bool)
    ensures
        forall|action: TrayAction|
            action != TrayAction::ToggleConversationDetection ==> #[trigger] tray.performed(
                action,
                takes_commands,
            ) == tray,
        tray.asked(TrayAction::OpenWindow, takes_commands, true) == Some(
            TrayRequestView::Ui(BluetoothUIMessage::OpenWindow),
        ),
        tray.asked(TrayAction::ConnectAirPods, takes_commands, true) == Some(
            TrayRequestView::Ui(BluetoothUIMessage::ConnectAirPods),
        ),
        tray.asked(TrayAction::Exit, takes_commands, true) == Some(TrayRequestView::Shutdown),
        tray.asked(TrayAction::Exit, takes_commands, false) == Some(TrayRequestView::ExitProcess),
{
}

// The settings file

/// The boolean that a member of a JSON object has, where a text is such an
/// object and has such a member.
pub uninterp spec fn json_switch(text: Seq<char>, member: Seq<char>) -> Option<bool>;

/// Reads a boolean member of a JSON text: `serde_json::from_str` to a value,
/// `Value::get` and `Value::as_bool`. Claims that the result is the same for
/// the same text and member; what JSON is stays unsaid.
#[verifier::external_body]
fn read_json_switch(text: &str, member: &str) -> (value: Option<bool>)
    ensures
        value == json_switch(text@, member@),
{
    serde_json::from_str::<serde_json::Value>(text).ok()?.get(member)?.as_bool()
}

/// Whether the icon is drawn as text, for what the settings say: only where
/// they say so.
pub fn text_mode(stored: Option<bool>) -> (on: bool)
    ensures
        on == (stored == Some(true)),
{
    match stored {
        Some(on) => on,
        None => false,
    }
}

/// Whether the icon is drawn as text, from the text of app_settings.json. A
/// file that is missing or does not say counts as no.
pub fn tray_text_mode(settings: Option<&str>) -> (on: bool)
    ensures
        on == (match settings {
            Some(text) => json_switch(text@, "tray_text_mode"@) == Some(true),
            None => false,
        }),
{
    match settings {
        Some(text) => text_mode(read_json_switch(text, "tray_text_mode")),
        None => text_mode(None),
    }
}

// The icon drawn with a font

/// A text to draw over the icon.
#[derive(Debug, Clone, PartialEq, Eq)]
pub struct Overlay {
    pub text: String,
    pub color: Rgba,
}

/// Whether a direction comes, clockwise from the top, before a percentage of
/// the whole turn or at it.
pub open spec fn up_to_percent(dx: int, dy: int, percent: int) -> bool {
    let q = crate::ui::tray_icon::quarter(dx, dy);
    let (right, up) = crate::ui::tray_icon::turned_back(dx, dy);
    let sines = crate::ui::tray_icon::sines();
    q < percent / 25 || (q == percent / 25 && right * sines[25 - percent % 25] <= up
        * sines[percent % 25])
}

/// The color of a pixel under the overlay: nothing in text mode, else a grey
/// ring with a green arc for the level. The ring stays grey while the level
/// is unknown.
pub open spec fn base_color(level: Option<u8>, text_mode: bool, x: int, y: int) -> Rgba {
    let (dx, dy) = (x - 32, y - 32);
    if text_mode || !crate::ui::tray_icon::on_ring(dx, dy) {
        crate::ui::tray_icon::clear()
    } else {
        match level {
            Some(l) => if up_to_percent(dx, dy, l as int) {
                crate::ui::tray_icon::green()
            } else {
                crate::ui::tray_icon::grey()
            },
            None => crate::ui::tray_icon::grey(),
        }
    }
}

fn base_pixel(level: Option<u8>, text_mode: bool, x: u32, y: u32) -> (color: Rgba)
    requires
        x < 64,
        y < 64,
    ensures
        color == base_color(level, text_mode, x as int, y as int),
{
    let dx: i64 = x as i64 - 32;
    let dy: i64 = y as i64 - 32;
    let on_ring = crate::ui::tray_icon::ring_has(dx, dy);
    if text_mode || !on_ring {
        return Rgba { r: 0, g: 0, b: 0, a: 0 };
    }
    let filled = match level {
        Some(l) => crate::ui::tray_icon::reaches(dx, dy, l as usize),
        None => false,
    };
    if filled {
        Rgba { r: 0, g: 255, b: 0, a: 255 }
    } else {
        Rgba { r: 128, g: 128, b: 128, a: 255 }
    }
}

/// The pixels under the overlay, rows top to bottom.
pub open spec fn base_pixels(level: Option<u8>, text_mode: bool) -> Seq<Rgba> {
    Seq::new(64 * 64, |i: int| base_color(level, text_mode, i % 64, i / 64))
}

/// The pixels under the overlay, red, green, blue and opacity of each, rows
/// top to bottom.
pub fn icon_base(level: Option<u8>, text_mode: bool) -> (pixels: Vec<Rgba>)
    ensures
        pixels@ == Seq::new(64 * 64, |i: int| base_color(level, text_mode, i % 64, i / 64)),
        pixels@ == base_pixels(level, text_mode),
{
    let mut pixels: Vec<Rgba> = Vec::new();
    let mut i: u32 = 0;
    while i < 64 * 64
        invariant
            i <= 64 * 64,
            pixels@.len() == i,
            forall|j: int|
                0 <= j < i ==> #[trigger] pixels@[j] == base_color(level, text_mode, j % 64, j / 64),
        decreases 64 * 64 - i,
    {
        pixels.push(base_pixel(level, text_mode, i % 64, i / 64));
        i = i + 1;
    }
    proof {
        assert(pixels@ =~= Seq::new(
            64 * 64,
            |i: int| base_color(level, text_mode, i % 64, i / 64),
        ));
    }
    pixels
}

/// The text to draw over the icon, and its color: in text mode the level or
/// "-", else a bolt while a bud charges. Green while charging, else white.
pub open spec fn shown_overlay(level: Option<u8>, text_mode: bool, charging: bool) -> Option<
    (Seq<char>, Rgba),
> {
    let color = if charging {
        crate::ui::tray_icon::green()
    } else {
        crate::ui::tray_icon::white()
    };
    if text_mode {
        match level {
            Some(l) => Some((crate::text::decimal(l as nat), color)),
            None => Some(("-"@, color)),
        }
    } else if charging {
        Some(("⚡"@, color))
    } else {
        None
    }
}

/// The text to draw over the icon: in text mode the level or "-", else a
/// bolt while a bud charges. Green while charging, else white.
pub fn icon_overlay(level: Option<u8>, text_mode: bool, charging: bool) -> (overlay: Option<
    Overlay,
>)
    ensures
        match overlay {
            Some(o) => (text_mode || charging) && o.text@ == (if text_mode {
                match level {
                    Some(l) => crate::text::decimal(l as nat),
                    None => "-"@,
                }
            } else {
                "⚡"@
            }) && o.color == (if charging {
                crate::ui::tray_icon::green()
            } else {
                crate::ui::tray_icon::white()
            }),
            None => !text_mode && !charging,
        },
        shown_overlay(level, text_mode, charging) == (match overlay {
            Some(o) => Some((o.text@, o.color)),
            None => None,
        }),
{
    let color = if charging {
        Rgba { r: 0, g: 255, b: 0, a: 255 }
    } else {
        Rgba { r: 255, g: 255, b: 255, a: 255 }
    };
    if text_mode {
        let text = match level {
            Some(l) => decimal_text(l as u64),
            None => "-".to_string(),
        };
        Some(Overlay { text, color })
    } else if charging {
        Some(Overlay { text: "⚡".to_string(), color })
    } else {
        None
    }
}

/// The bytes of an icon in network byte order: opacity, red, green and blue
/// of each pixel.
pub fn argb_bytes(pixels: &[Rgba]) -> (bytes: Vec<u8>)
    requires
        pixels@.len() <= 0x1000_0000,
    ensures
        bytes@ == Seq::new(
            4 * pixels@.len(),
            |i: int| crate::ui::tray_icon::argb_byte(pixels@[i / 4], i % 4),
        ),
{
    let mut bytes: Vec<u8> = Vec::new();
    let mut i: usize = 0;
    while i < pixels.len()
        invariant
            i <= pixels@.len(),
            bytes@.len() == 4 * i,
            forall|j: int|
                0 <= j < 4 * i ==> #[trigger] bytes@[j] == crate::ui::tray_icon::argb_byte(
                    pixels@[j / 4],
                    j % 4,
                ),
        decreases pixels@.len() - i,
    {
        let color = pixels[i];
        bytes.push(color.a);
        bytes.push(color.r);
        bytes.push(color.g);
        bytes.push(color.b);
        i = i + 1;
    }
    proof {
        assert(bytes@ =~= Seq::new(
            4 * pixels@.len(),
            |i: int| crate::ui::tray_icon::argb_byte(pixels@[i / 4], i % 4),
        ));
    }
    bytes
}

/// The pixel in a row and a column stands there, row by row.
pub proof fn base_pixels_are_in_rows(level: Option<u8>, text_mode: bool, x: int, y: int)
    requires
        0 <= x < 64,
        0 <= y < 64,
    ensures
        base_pixels(level, text_mode).len() == 4096,
        base_pixels(level, text_mode)[64 * y + x] == base_color(level, text_mode, x, y),
{
    assert((64 * y + x) % 64 == x && (64 * y + x) / 64 == y);
}

/// Under the overlay there is nothing in text mode, and a ring otherwise. It is
/// all grey while the level is unknown and all green when full; a half fills its
/// right half, clockwise from the top, up to the last pixel column at most.
pub proof fn the_base_is_a_ring(level: u8, x: int, y: int)
    ensures
        ({
            let dx = x - 32;
            let dy = y - 32;
            let ring = 484 < dx * dx + dy * dy <= 784;
            let text = base_color(Some(level), true, x, y);
            let color = base_color(Some(level), false, x, y);
            let unknown = base_color(None, false, x, y);
            let half = base_color(Some(50), false, x, y);
            let quarter = base_color(Some(25), false, x, y);
            let green = Rgba { r: 0, g: 255, b: 0, a: 255 };
            let grey = Rgba { r: 128, g: 128, b: 128, a: 255 };
            &&& text == (Rgba { r: 0, g: 0, b: 0, a: 0 })
            &&& !ring ==> color == (Rgba { r: 0, g: 0, b: 0, a: 0 }) && unknown == color
            &&& ring ==> (color == green || color == grey) && unknown == grey
            &&& ring && level >= 100 ==> color == green
            &&& ring && dx > 0 ==> half == green
            &&& ring && dx < 0 ==> half == grey
            &&& ring && dx > 0 && dy < 0 ==> quarter == green
            &&& ring && (dx < 0 || dy > 0) ==> quarter == grey
        }),
{
    let (dx, dy) = (x - 32, y - 32);
    let (right, up) = crate::ui::tray_icon::turned_back(dx, dy);
    let sines = crate::ui::tray_icon::sines();
    assert(right > 0 ==> right * sines[25] > 0) by (nonlinear_arith)
        requires
            sines[25] == 10000,
    ;
    assert(up * sines[0] == 0) by (nonlinear_arith)
        requires
            sines[0] == 0,
    ;
}

/// A level that is drawn with a font has at least the green pixels of the one
/// drawn without, and no more but those at its very end.
pub proof fn both_rings_fill_alike(dx: int, dy: int, percent: int)
    requires
        0 <= percent <= 100,
    ensures
        crate::ui::tray_icon::before_percent(dx, dy, percent) ==> up_to_percent(dx, dy, percent),
        up_to_percent(dx, dy, percent) && !crate::ui::tray_icon::before_percent(dx, dy, percent)
            ==> ({
            let (right, up) = crate::ui::tray_icon::turned_back(dx, dy);
            right * crate::ui::tray_icon::sines()[25 - percent % 25] == up
                * crate::ui::tray_icon::sines()[percent % 25]
        }),
{
}

/// The text over the icon is the level in text mode, a dash where it is unknown,
/// and else a bolt exactly while a bud charges. It is green while one does, and
/// else white.
pub proof fn the_overlay_shows_the_level_or_a_bolt(level: u8, charging: bool)
    ensures
        ({
            let color = Rgba {
                r: if charging {
                    0
                } else {
                    255
                },
                g: 255,
                b: if charging {
                    0
                } else {
                    255
                },
                a: 255,
            };
            let known = shown_overlay(Some(level), true, charging);
            let bolt = shown_overlay(Some(level), false, charging);
            &&& known matches Some((text, ink)) && ink == color && crate::text::number_of(text)
                == level
            &&& shown_overlay(None, true, charging) == Some((seq!['-'], color))
            &&& charging ==> bolt == Some((seq!['⚡'], color))
            &&& !charging ==> bolt is None
            &&& shown_overlay(None, false, charging) == bolt
        }),
{
    reveal_strlit("-");
    reveal_strlit("⚡");
    crate::text::decimals_read_back(level as nat);
    assert("-"@ =~= seq!['-']);
    assert("⚡"@ =~= seq!['⚡']);
}

/// The modes of the menu come in the order of their bytes. The one that is
/// marked is the current mode, and the first one where that is unknown or not
/// offered.
pub proof fn the_modes_come_in_order(tray: MyTray, i: int, j: int)
    ensures
        0 <= i < j < tray.mode_options().len() ==> tray.mode_options()[i].1
            < tray.mode_options()[j].1,
        0 <= tray.selected_mode() < tray.mode_options().len(),
        tray.listening_mode is None ==> tray.selected_mode() == 0,
        tray.listening_mode matches Some(mode) ==> tray.selected_mode() == 0
            || tray.mode_options()[tray.selected_mode()].1 == mode,
        tray.menu_shown()[2] == (TrayItemView::Modes {
            options: tray.mode_options(),
            selected: tray.selected_mode(),
        }),
{
}

/// What the entries of the menu are called.
pub proof fn the_entries_have_their_names(tray: MyTray)
    ensures
        tray.menu_shown()[0] matches TrayItemView::Standard { label, .. } && label
            == "Open Window"@,
        tray.menu_shown()[1] matches TrayItemView::Standard { label, .. } && label
            == "Connect AirPods to this PC"@,
        tray.menu_shown()[3] is Separator,
        tray.menu_shown()[4] matches TrayItemView::Checkmark { label, .. } && label
            == "Conversation Detection"@,
        tray.menu_shown()[5] matches TrayItemView::Standard { label, .. } && label == "Exit"@,
{
}

/// A level over 100 is a dash, whatever the status says.
pub proof fn strange_levels_are_a_dash(level: u8, status: Option<BatteryStatus>)
    requires
        level > 100,
    ensures
        battery_line(Some(level), status) == seq!['-'],
{
    reveal_strlit("-");
    assert("-"@ =~= seq!['-']);
}

} // verus!
