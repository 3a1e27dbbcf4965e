//! State and key handling of the terminal client (drawing is done by the
//! caller).

use vstd::prelude::*;
use crate::state::{NetworkInfo, WifiStateSnapshot};
use crate::text::{push_char, pop_char};

verus! {

/// What typed keys go to.
#[derive(Debug, Clone, Copy, PartialEq, Eq, Structural)]
pub enum InputMode {
    Normal,
    Password,
    ManualSsid,
}

/// A key press, as far as the client tells keys apart.
#[derive(Debug, Clone, Copy, PartialEq, Eq, Structural)]
pub enum Key {
    Char(char),
    Up,
    Down,
    Enter,
    Esc,
    Backspace,
    Tab,
    Other,
}

/// What the caller is to do after a key.
#[derive(Debug, Clone)]
pub enum TuiAction {
    Nothing,
    /// Fetch a fresh status from the daemon.
    Refresh,
    /// Ask the daemon to join `ssid` (saving the credentials).
    Connect { ssid: String, password: String },
}

/// The terminal client.
#[derive(Debug, Clone)]
pub struct App {
    pub socket_path: String,
    pub state: Option<WifiStateSnapshot>,
    pub selected_network: usize,
    pub input_mode: InputMode,
    pub password_input: String,
    pub password_visible: bool,
    pub error_message: Option<String>,
    pub should_quit: bool,
}

/// The network at `i` of the current status, if any.
pub open spec fn selected_spec(state: Option<WifiStateSnapshot>, i: usize) -> Option<NetworkInfo> {
    match state {
        Some(s) => if i < s.available_networks@.len() { Some(s.available_networks@[i as int]) } else { None },
        None => None,
    }
}

impl App {
    pub fn new(socket_path: String) -> (r: App)
        ensures
            r.socket_path == socket_path,
            r.state is None,
            r.selected_network == 0,
            r.input_mode == InputMode::Normal,
            r.password_input@.len() == 0,
            !r.password_visible,
            r.error_message is None,
            !r.should_quit,
    {
        App {
            socket_path,
            state: None,
            selected_network: 0,
            input_mode: InputMode::Normal,
            password_input: String::new(),
            password_visible: false,
            error_message: None,
            should_quit: false,
        }
    }

    /// SSID of the highlighted network.
    pub fn selected_ssid(&self) -> (r: Option<String>)
        ensures
            match selected_spec(self.state, self.selected_network) {
                Some(n) => r matches Some(s) && s@ == n.ssid@,
                None => r is None,
            },
    {
        match &self.state {
            Some(s) => {
                if self.selected_network < s.available_networks.len() {
                    Some(s.available_networks[self.selected_network].ssid.clone())
                } else {
                    None
                }
            },
            None => None,
        }
    }

    /// Takes in the daemon's answer to a status request.
    pub fn apply_status(&mut self, result: Result<WifiStateSnapshot, String>)
        ensures
            match result {
                Ok(s) => final(self).state == Some(s) && final(self).error_message is None,
                Err(e) => final(self).state == old(self).state && (final(self).error_message matches Some(m)
                    && m@ == "Failed to connect to daemon: "@ + e@),
            },
            final(self).selected_network == old(self).selected_network,
            final(self).input_mode == old(self).input_mode,
            final(self).password_input == old(self).password_input,
    {
        match result {
            Ok(s) => {
                self.state = Some(s);
                self.error_message = None;
            },
            Err(e) => {
                let mut m = String::from_str("Failed to connect to daemon: ");
                m.append(e.as_str());
                self.error_message = Some(m);
            },
        }
    }

    /// Takes in the daemon's answer to a connect request.
    pub fn apply_connect_result(&mut self, result: Result<(), String>)
        ensures
            result is Ok ==> final(self).input_mode == InputMode::Normal && final(self).password_input@.len() == 0,
            result matches Err(e) ==> final(self).input_mode == old(self).input_mode
                && (final(self).error_message matches Some(m) && m@ == "Connection failed: "@ + e@),
            final(self).state == old(self).state,
            final(self).selected_network == old(self).selected_network,
    {
        match result {
            Ok(()) => {
                self.input_mode = InputMode::Normal;
                self.password_input = String::new();
            },
            Err(e) => {
                let mut m = String::from_str("Connection failed: ");
                m.append(e.as_str());
                self.error_message = Some(m);
            },
        }
    }

    fn connect_selected(&self) -> (r: TuiAction)
        ensures
            match selected_spec(self.state, self.selected_network) {
                Some(n) => r matches TuiAction::Connect { ssid, password } && ssid@ == n.ssid@
                    && password@ == self.password_input@,
                None => r is Nothing,
            },
    {
        match self.selected_ssid() {
            Some(ssid) => TuiAction::Connect { ssid, password: self.password_input.clone() },
            None => TuiAction::Nothing,
        }
    }

    /// Handles one key press.
    ///
    /// In the list: q or Esc quits, Up/k and Down/j move within the list,
    /// Enter asks for a password for a secured network or connects to an
    /// open one, m starts manual entry, r refreshes. In the password field:
    /// characters are typed, Backspace deletes, Tab shows or hides, Enter
    /// connects, Esc returns to the list.
    pub fn on_key(&mut self, key: Key) -> (r: TuiAction)
        ensures
            final(self).state == old(self).state,
            final(self).socket_path == old(self).socket_path,
            old(self).input_mode == InputMode::Normal ==> match key {
                Key::Char('q') | Key::Esc => final(self).should_quit && r is Nothing,
                Key::Up | Key::Char('k') => r is Nothing && final(self).selected_network == if old(self).selected_network > 0 {
                    (old(self).selected_network - 1) as usize
                } else {
                    old(self).selected_network
                },
                Key::Down | Key::Char('j') => r is Nothing && final(self).selected_network == match old(self).state {
                    Some(s) => if old(self).selected_network + 1 < s.available_networks@.len() {
                        (old(self).selected_network + 1) as usize
                    } else {
                        old(self).selected_network
                    },
                    None => old(self).selected_network,
                },
                Key::Enter => match selected_spec(old(self).state, old(self).selected_network) {
                    Some(n) => if n.is_secured {
                        final(self).input_mode == InputMode::Password && r is Nothing
                    } else {
                        final(self).password_input@.len() == 0 && (r matches TuiAction::Connect { ssid, password }
                            && ssid@ == n.ssid@ && password@.len() == 0)
                    },
                    None => r is Nothing && final(self).input_mode == InputMode::Normal,
                },
                Key::Char('m') => final(self).input_mode == InputMode::ManualSsid && r is Nothing,
                Key::Char('r') => r is Refresh,
                _ => r is Nothing && final(self).input_mode == InputMode::Normal,
            },
            old(self).input_mode != InputMode::Normal ==> match key {
                Key::Esc => final(self).input_mode == InputMode::Normal && final(self).password_input@.len() == 0
                    && r is Nothing,
                Key::Enter => if old(self).input_mode == InputMode::Password {
                    match selected_spec(old(self).state, old(self).selected_network) {
                        Some(n) => r matches TuiAction::Connect { ssid, password } && ssid@ == n.ssid@
                            && password@ == old(self).password_input@,
                        None => r is Nothing,
                    }
                } else {
                    final(self).input_mode == InputMode::Normal && r is Nothing
                },
                Key::Backspace => final(self).password_input@ == (if old(self).password_input@.len() > 0 {
                    old(self).password_input@.drop_last()
                } else {
                    old(self).password_input@
                }) && r is Nothing,
                Key::Char(c) => final(self).password_input@ == old(self).password_input@.push(c) && r is Nothing,
                Key::Tab => r is Nothing && (old(self).input_mode == InputMode::Password ==>
                    final(self).password_visible == !old(self).password_visible),
                _ => r is Nothing,
            },
    {
        match self.input_mode {
            InputMode::Normal => match key {
                Key::Char('q') | Key::Esc => {
                    self.should_quit = true;
                    TuiAction::Nothing
                },
                Key::Up | Key::Char('k') => {
                    if self.selected_network > 0 {
                        self.selected_network = self.selected_network - 1;
                    }
                    TuiAction::Nothing
                },
                Key::Down | Key::Char('j') => {
                    match &self.state {
                        Some(s) => {
                            if s.available_networks.len() > 0 && self.selected_network < s.available_networks.len() - 1 {
                                self.selected_network = self.selected_network + 1;
                            }
                        },
                        None => {},
                    }
                    TuiAction::Nothing
                },
                Key::Enter => {
                    let secured = match &self.state {
                        Some(s) => if self.selected_network < s.available_networks.len() {
                            Some(s.available_networks[self.selected_network].is_secured)
                        } else {
                            None
                        },
                        None => None,
                    };
                    match secured {
                        Some(true) => {
                            self.input_mode = InputMode::Password;
                            TuiAction::Nothing
                        },
                        Some(false) => {
                            self.password_input = String::new();
                            self.connect_selected()
                        },
                        None => TuiAction::Nothing,
                    }
                },
                Key::Char('m') => {
                    self.input_mode = InputMode::ManualSsid;
                    TuiAction::Nothing
                },
                Key::Char('r') => TuiAction::Refresh,
                _ => TuiAction::Nothing,
            },
            mode => match key {
                Key::Esc => {
                    self.input_mode = InputMode::Normal;
                    self.password_input = String::new();
                    TuiAction::Nothing
                },
                Key::Enter => {
                    if mode == InputMode::Password {
                        self.connect_selected()
                    } else {
                        self.input_mode = InputMode::Normal;
                        TuiAction::Nothing
                    }
                },
                Key::Backspace => {
                    let _ = pop_char(&mut self.password_input);
                    TuiAction::Nothing
                },
                Key::Char(c) => {
                    push_char(&mut self.password_input, c);
                    TuiAction::Nothing
                },
                Key::Tab => {
                    if mode == InputMode::Password {
                        self.password_visible = !self.password_visible;
                    }
                    TuiAction::Nothing
                },
                _ => TuiAction::Nothing,
            },
        }
    }
}

} // verus!

verus! {

/// A screen rectangle in terminal cells.
#[derive(Debug, Clone, Copy, PartialEq, Eq, Structural)]
pub struct Area {
    pub x: u16,
    pub y: u16,
    pub width: u16,
    pub height: u16,
}

pub open spec fn sat_sub(a: u16, b: u16) -> u16 {
    if a >= b { (a - b) as u16 } else { 0 }
}

pub open spec fn min16(a: u16, b: u16) -> u16 {
    if a <= b { a } else { b }
}

pub open spec fn at_least_one(a: u16) -> u16 {
    if a >= 1 { a } else { 1 }
}

/// A box of at most `max_width` by `max_height`, inside `area` less a
/// one-cell margin (never smaller than one cell), centred in `area`.
pub fn centered_box(area: Area, max_width: u16, max_height: u16) -> (r: Area)
    requires
        area.x + area.width <= u16::MAX,
        area.y + area.height <= u16::MAX,
    ensures
        r.width == min16(at_least_one(sat_sub(area.width, 2)), max_width),
        r.height == min16(at_least_one(sat_sub(area.height, 2)), max_height),
        r.x == area.x + sat_sub(area.width, r.width) / 2,
        r.y == area.y + sat_sub(area.height, r.height) / 2,
{
    let available_width = if area.width >= 2 { area.width - 2 } else { 0 };
    let available_width = if available_width >= 1 { available_width } else { 1 };
    let available_height = if area.height >= 2 { area.height - 2 } else { 0 };
    let available_height = if available_height >= 1 { available_height } else { 1 };
    let width = if available_width <= max_width { available_width } else { max_width };
    let height = if available_height <= max_height { available_height } else { max_height };
    let free_w = if area.width >= width { area.width - width } else { 0 };
    let free_h = if area.height >= height { area.height - height } else { 0 };
    Area { x: area.x + free_w / 2, y: area.y + free_h / 2, width, height }
}

/// `area` shrunk by `padding` cells on every side (saturating), never
/// smaller than one cell.
pub fn inset(area: Area, padding: u16) -> (r: Area)
    ensures
        ({
            let double = if 2 * padding <= u16::MAX { (2 * padding) as u16 } else { u16::MAX };
            &&& r.x == if area.x + padding <= u16::MAX { (area.x + padding) as u16 } else { u16::MAX }
            &&& r.y == if area.y + padding <= u16::MAX { (area.y + padding) as u16 } else { u16::MAX }
            &&& r.width == at_least_one(sat_sub(area.width, double))
            &&& r.height == at_least_one(sat_sub(area.height, double))
        }),
{
    let double: u16 = if padding <= u16::MAX / 2 { 2 * padding } else { u16::MAX };
    let width: u16 = if area.width >= double { area.width - double } else { 0 };
    let height: u16 = if area.height >= double { area.height - double } else { 0 };
    let x: u16 = if area.x <= u16::MAX - padding { area.x + padding } else { u16::MAX };
    let y: u16 = if area.y <= u16::MAX - padding { area.y + padding } else { u16::MAX };
    Area {
        x,
        y,
        width: if width >= 1 { width } else { 1 },
        height: if height >= 1 { height } else { 1 },
    }
}

/// Colour class of a signal strength.
#[derive(Debug, Clone, Copy, PartialEq, Eq, Structural)]
pub enum SignalTier {
    /// 80 to 100.
    Strong,
    /// 50 to 79.
    Good,
    /// 30 to 49.
    Weak,
    /// Below 30, or above 100.
    Poor,
}

pub fn signal_color(signal: u8) -> (r: SignalTier)
    ensures
        r == if 80 <= signal <= 100 {
            SignalTier::Strong
        } else if 50 <= signal <= 79 {
            SignalTier::Good
        } else if 30 <= signal <= 49 {
            SignalTier::Weak
        } else {
            SignalTier::Poor
        },
{
    if 80 <= signal && signal <= 100 {
        SignalTier::Strong
    } else if 50 <= signal && signal <= 79 {
        SignalTier::Good
    } else if 30 <= signal && signal <= 49 {
        SignalTier::Weak
    } else {
        SignalTier::Poor
    }
}

} // verus!
