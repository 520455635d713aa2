//! The chat menu's decisions: settings buttons, what a button press asks for,
//! the notice after a toggle, and the steps of signing in with the secret word.

use vstd::prelude::*;
use crate::models::NotificationSettings;

verus! {

/// Text equality of two string slices.
fn same_text(a: &str, b: &str) -> (r: bool)
    ensures
        r == (a@ == b@),
{
    let x = String::from_str(a);
    let y = String::from_str(b);
    x == y
}

/// A button: its caption and the data it sends back when pressed.
pub struct MenuButton {
    pub text: String,
    pub data: &'static str,
}

fn plain(text: &str, data: &'static str) -> (r: MenuButton)
    ensures
        r.text@ == text@,
        r.data == data,
{
    MenuButton { text: String::from_str(text), data }
}

/// The main menu: rows of (caption, data).
pub open spec fn main_menu_layout() -> Seq<Seq<(Seq<char>, Seq<char>)>> {
    seq![
        seq![("📊 Status"@, "status"@), ("🌤 Weather"@, "weather"@)],
        seq![("🌱 Garden"@, "garden"@), ("📈 Daily Stats"@, "stats"@)],
        seq![("⚡ Power"@, "power"@), ("⚙️ Settings"@, "settings"@)],
    ]
}

/// The main menu, two buttons per row.
pub fn main_menu() -> (r: Vec<Vec<MenuButton>>)
    ensures
        r@.len() == main_menu_layout().len(),
        forall|i: int| 0 <= i < r@.len() ==> #[trigger] r@[i]@.len() == main_menu_layout()[i].len(),
        forall|i: int, j: int|
            0 <= i < r@.len() && 0 <= j < r@[i]@.len() ==> (#[trigger] r@[i]@[j].text@, r@[i]@[j].data@)
                == main_menu_layout()[i][j],
{
    let mut rows: Vec<Vec<MenuButton>> = Vec::new();
    let mut row: Vec<MenuButton> = Vec::new();
    row.push(plain("📊 Status", "status"));
    row.push(plain("🌤 Weather", "weather"));
    rows.push(row);
    let mut row: Vec<MenuButton> = Vec::new();
    row.push(plain("🌱 Garden", "garden"));
    row.push(plain("📈 Daily Stats", "stats"));
    rows.push(row);
    let mut row: Vec<MenuButton> = Vec::new();
    row.push(plain("⚡ Power", "power"));
    row.push(plain("⚙️ Settings", "settings"));
    rows.push(row);
    rows
}

/// The mark in front of a setting: a tick when on, a cross when off.
pub open spec fn check_icon(on: bool) -> Seq<char> {
    if on {
        "✅"@
    } else {
        "❌"@
    }
}

fn captioned(on: bool, caption: &str, data: &'static str) -> (r: MenuButton)
    ensures
        r.text@ == check_icon(on) + caption@,
        r.data == data,
{
    let mut text = if on {
        String::from_str("✅")
    } else {
        String::from_str("❌")
    };
    text.append(caption);
    MenuButton { text, data }
}

/// The settings menu, one button per row: the four toggles, then back.
pub fn settings_buttons(settings: &NotificationSettings) -> (r: Vec<MenuButton>)
    ensures
        r@.len() == 5,
        r@[0].text@ == check_icon(settings.soil_moisture_alerts) + " Soil moisture"@,
        r@[0].data@ == "toggle_soil"@,
        r@[1].text@ == check_icon(settings.temperature_alerts) + " Temperature"@,
        r@[1].data@ == "toggle_temp"@,
        r@[2].text@ == check_icon(settings.power_alerts) + " Power outage"@,
        r@[2].data@ == "toggle_power"@,
        r@[3].text@ == check_icon(settings.quiet_hours_enabled) + " Quiet hours (23-07)"@,
        r@[3].data@ == "toggle_quiet"@,
        r@[4].text@ == "« Back"@,
        r@[4].data@ == "back"@,
{
    let mut buttons: Vec<MenuButton> = Vec::new();
    buttons.push(captioned(settings.soil_moisture_alerts, " Soil moisture", "toggle_soil"));
    buttons.push(captioned(settings.temperature_alerts, " Temperature", "toggle_temp"));
    buttons.push(captioned(settings.power_alerts, " Power outage", "toggle_power"));
    buttons.push(captioned(settings.quiet_hours_enabled, " Quiet hours (23-07)", "toggle_quiet"));
    buttons.push(MenuButton { text: String::from_str("« Back"), data: "back" });
    buttons
}

/// A report of the main menu.
#[derive(Clone, Copy, Debug, PartialEq, Eq, Structural)]
pub enum Report {
    Status,
    Weather,
    Garden,
    Stats,
    Power,
}

/// A preference that a settings button flips.
#[derive(Clone, Copy, Debug, PartialEq, Eq, Structural)]
pub enum ToggleTarget {
    Soil,
    Temperature,
    Power,
    QuietHours,
}

/// What a button press asks for.
#[derive(Clone, Copy, Debug, PartialEq, Eq, Structural)]
pub enum MenuAction {
    /// Open the settings menu.
    Settings,
    /// Go back to the main menu.
    Back,
    /// Show a report.
    Show(Report),
    /// Flip a preference.
    Toggle(ToggleTarget),
    /// A toggle that does not exist: nothing is done.
    IgnoredToggle,
    /// Anything else: answered with "Unknown command".
    Unknown,
}

/// The action that the data of a pressed button asks for. Data that starts
/// with "toggle_" names a toggle or is ignored.
pub open spec fn action_of(data: Seq<char>) -> MenuAction {
    if data.len() >= 7 && data.subrange(0, 7) == "toggle_"@ {
        if data == "toggle_soil"@ {
            MenuAction::Toggle(ToggleTarget::Soil)
        } else if data == "toggle_temp"@ {
            MenuAction::Toggle(ToggleTarget::Temperature)
        } else if data == "toggle_power"@ {
            MenuAction::Toggle(ToggleTarget::Power)
        } else if data == "toggle_quiet"@ {
            MenuAction::Toggle(ToggleTarget::QuietHours)
        } else {
            MenuAction::IgnoredToggle
        }
    } else if data == "settings"@ {
        MenuAction::Settings
    } else if data == "back"@ {
        MenuAction::Back
    } else if data == "status"@ {
        MenuAction::Show(Report::Status)
    } else if data == "weather"@ {
        MenuAction::Show(Report::Weather)
    } else if data == "garden"@ {
        MenuAction::Show(Report::Garden)
    } else if data == "stats"@ {
        MenuAction::Show(Report::Stats)
    } else if data == "power"@ {
        MenuAction::Show(Report::Power)
    } else {
        MenuAction::Unknown
    }
}

/// Reads the data of a pressed button.
pub fn parse_callback(data: &str) -> (r: MenuAction)
    ensures
        r == action_of(data@),
{
    let is_toggle = if data.unicode_len() >= 7 {
        same_text(data.substring_char(0, 7), "toggle_")
    } else {
        false
    };
    if is_toggle {
        if same_text(data, "toggle_soil") {
            MenuAction::Toggle(ToggleTarget::Soil)
        } else if same_text(data, "toggle_temp") {
            MenuAction::Toggle(ToggleTarget::Temperature)
        } else if same_text(data, "toggle_power") {
            MenuAction::Toggle(ToggleTarget::Power)
        } else if same_text(data, "toggle_quiet") {
            MenuAction::Toggle(ToggleTarget::QuietHours)
        } else {
            MenuAction::IgnoredToggle
        }
    } else if same_text(data, "settings") {
        MenuAction::Settings
    } else if same_text(data, "back") {
        MenuAction::Back
    } else if same_text(data, "status") {
        MenuAction::Show(Report::Status)
    } else if same_text(data, "weather") {
        MenuAction::Show(Report::Weather)
    } else if same_text(data, "garden") {
        MenuAction::Show(Report::Garden)
    } else if same_text(data, "stats") {
        MenuAction::Show(Report::Stats)
    } else if same_text(data, "power") {
        MenuAction::Show(Report::Power)
    } else {
        MenuAction::Unknown
    }
}

/// The name of a toggled preference in its notice.
pub open spec fn toggle_name(target: ToggleTarget) -> Seq<char> {
    match target {
        ToggleTarget::Soil => "Soil alerts"@,
        ToggleTarget::Temperature => "Temperature alerts"@,
        ToggleTarget::Power => "Power alerts"@,
        ToggleTarget::QuietHours => "Quiet hours"@,
    }
}

/// The notice after flipping `target`: its new value, or that the store
/// failed (`outcome` absent).
pub open spec fn toggle_notice_text(target: ToggleTarget, outcome: Option<bool>) -> Seq<char> {
    match outcome {
        Some(on) => toggle_name(target) + " "@ + if on {
            "enabled"@
        } else {
            "disabled"@
        },
        None => "Failed to update"@,
    }
}

/// The notice after flipping `target`, given the new value, or none where the
/// store failed.
pub fn toggle_notice(target: ToggleTarget, outcome: Option<bool>) -> (r: String)
    ensures
        r@ == toggle_notice_text(target, outcome),
{
    match outcome {
        Some(on) => {
            let mut s = match target {
                ToggleTarget::Soil => String::from_str("Soil alerts"),
                ToggleTarget::Temperature => String::from_str("Temperature alerts"),
                ToggleTarget::Power => String::from_str("Power alerts"),
                ToggleTarget::QuietHours => String::from_str("Quiet hours"),
            };
            s.append(" ");
            if on {
                s.append("enabled");
            } else {
                s.append("disabled");
            }
            s
        },
        None => String::from_str("Failed to update"),
    }
}

/// What to do with a message from a user who has not signed in yet.
#[derive(Clone, Copy, Debug, PartialEq, Eq, Structural)]
pub enum LoginStep {
    /// The user is already on the list: greet them and show the menu.
    WelcomeBack,
    /// The message holds no text: ask for the secret word.
    AskSecret,
    /// The text is the secret word: put the user on the list.
    Authorize,
    /// The text is something else: say so and ask again.
    Incorrect,
}

/// The sign-in decision, given the message text with surrounding whitespace
/// already removed.
pub open spec fn login_step_of(authorized: bool, trimmed: Option<Seq<char>>, secret: Seq<char>) -> LoginStep {
    if authorized {
        LoginStep::WelcomeBack
    } else {
        match trimmed {
            None => LoginStep::AskSecret,
            Some(t) => if t == secret {
                LoginStep::Authorize
            } else {
                LoginStep::Incorrect
            },
        }
    }
}

/// The sign-in decision for a message whose text (if any) has had its
/// surrounding whitespace removed.
pub fn login_step_trimmed(authorized: bool, trimmed: Option<&str>, secret: &str) -> (r: LoginStep)
    ensures
        r == login_step_of(
            authorized,
            match trimmed {
                Some(t) => Some(t@),
                None => None,
            },
            secret@,
        ),
{
    if authorized {
        LoginStep::WelcomeBack
    } else {
        match trimmed {
            None => LoginStep::AskSecret,
            Some(t) => if same_text(t, secret) {
                LoginStep::Authorize
            } else {
                LoginStep::Incorrect
            },
        }
    }
}

/// A character with the Unicode White_Space property, which `char::is_whitespace`
/// tests.
pub open spec fn is_white_space(c: char) -> bool {
    ('\u{9}' <= c && c <= '\u{d}') || c == ' ' || c == '\u{85}' || c == '\u{a0}'
        || c == '\u{1680}' || ('\u{2000}' <= c && c <= '\u{200a}') || c == '\u{2028}'
        || c == '\u{2029}' || c == '\u{202f}' || c == '\u{205f}' || c == '\u{3000}'
}

/// `s` without its leading white space.
pub open spec fn trim_start_of(s: Seq<char>) -> Seq<char>
    decreases s.len(),
{
    if s.len() > 0 && is_white_space(s[0]) {
        trim_start_of(s.drop_first())
    } else {
        s
    }
}

/// `s` without its trailing white space.
pub open spec fn trim_end_of(s: Seq<char>) -> Seq<char>
    decreases s.len(),
{
    if s.len() > 0 && is_white_space(s.last()) {
        trim_end_of(s.drop_last())
    } else {
        s
    }
}

/// `s` without leading and trailing white space.
pub open spec fn trim_of(s: Seq<char>) -> Seq<char> {
    trim_end_of(trim_start_of(s))
}

/// Relies on `str::trim`: the text with leading and trailing white space (as
/// `char::is_whitespace` defines it) removed.
#[verifier::external_body]
fn trimmed(s: &str) -> (r: String)
    ensures
        r@ == trim_of(s@),
{
    s.trim().to_string()
}

/// The sign-in decision for a message with optional text, compared to the
/// secret word after trimming.
pub fn login_step(authorized: bool, text: Option<&str>, secret: &str) -> (r: LoginStep)
    ensures
        r == login_step_of(
            authorized,
            match text {
                Some(t) => Some(trim_of(t@)),
                None => None,
            },
            secret@,
        ),
{
    match text {
        Some(t) => {
            let tt = trimmed(t);
            login_step_trimmed(authorized, Some(tt.as_str()), secret)
        },
        None => login_step_trimmed(authorized, None, secret),
    }
}

impl LoginStep {
    /// The reply to the user at this step.
    pub open spec fn spec_reply(self) -> Seq<char> {
        match self {
            LoginStep::WelcomeBack => "Welcome back!"@,
            LoginStep::AskSecret => "Please enter the secret word to continue."@,
            LoginStep::Authorize => "You are now authorized!"@,
            LoginStep::Incorrect => "Incorrect. Please enter the secret word."@,
        }
    }

    /// The reply to the user at this step (where signing in succeeds).
    pub fn reply(&self) -> (r: &'static str)
        ensures
            r@ == self.spec_reply(),
    {
        match self {
            LoginStep::WelcomeBack => "Welcome back!",
            LoginStep::AskSecret => "Please enter the secret word to continue.",
            LoginStep::Authorize => "You are now authorized!",
            LoginStep::Incorrect => "Incorrect. Please enter the secret word.",
        }
    }
}

/// Whether the key a client presented equals the expected one; a missing key
/// never matches.
pub fn check_api_key(provided: Option<&str>, expected: &str) -> (r: bool)
    ensures
        r == match provided {
            Some(p) => p@ == expected@,
            None => false,
        },
{
    match provided {
        Some(p) => same_text(p, expected),
        None => false,
    }
}

} // verus!
