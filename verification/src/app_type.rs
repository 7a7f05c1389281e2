use vstd::prelude::*;

verus! {

/// The coding tools whose configuration the interface manages.
#[derive(Debug, Clone, Copy, PartialEq, Eq, Structural)]
pub enum AppType {
    Claude,
    Codex,
    Gemini,
    OpenCode,
    Hermes,
    OpenClaw,
}

impl View for AppType {
    type V = AppType;

    open spec fn view(&self) -> AppType {
        *self
    }
}

/// The names that the applications are stored under, which sessions, workers and
/// cached results refer to them by.
#[derive(Debug)]
pub struct AppNames {
    pub claude: String,
    pub codex: String,
    pub gemini: String,
    pub open_code: String,
    pub hermes: String,
    pub open_claw: String,
}

/// The names that the applications are stored under.
#[verifier::ext_equal]
pub struct AppNamesView {
    pub claude: Seq<char>,
    pub codex: Seq<char>,
    pub gemini: Seq<char>,
    pub open_code: Seq<char>,
    pub hermes: Seq<char>,
    pub open_claw: Seq<char>,
}

impl View for AppNames {
    type V = AppNamesView;

    open spec fn view(&self) -> AppNamesView {
        AppNamesView {
            claude: self.claude@,
            codex: self.codex@,
            gemini: self.gemini@,
            open_code: self.open_code@,
            hermes: self.hermes@,
            open_claw: self.open_claw@,
        }
    }
}

impl AppNamesView {
    pub open spec fn of(self, app_type: AppType) -> Seq<char> {
        match app_type {
            AppType::Claude => self.claude,
            AppType::Codex => self.codex,
            AppType::Gemini => self.gemini,
            AppType::OpenCode => self.open_code,
            AppType::Hermes => self.hermes,
            AppType::OpenClaw => self.open_claw,
        }
    }
}

impl AppNames {
    pub fn of(&self, app_type: &AppType) -> (name: &String)
        ensures
            name@ == self@.of(*app_type),
    {
        match app_type {
            AppType::Claude => &self.claude,
            AppType::Codex => &self.codex,
            AppType::Gemini => &self.gemini,
            AppType::OpenCode => &self.open_code,
            AppType::Hermes => &self.hermes,
            AppType::OpenClaw => &self.open_claw,
        }
    }
}

/// Applications whose startup snapshot is read from memory alone and is cheap
/// enough to be prepared at startup. The others read live configuration files
/// even for a snapshot and are loaded when they are first switched to.
pub open spec fn lightweight_preseed(app_type: AppType) -> bool {
    app_type == AppType::Claude || app_type == AppType::Codex || app_type == AppType::Gemini
}

pub fn is_lightweight_preseed_app(app_type: &AppType) -> (result: bool)
    ensures
        result == lightweight_preseed(*app_type),
{
    match app_type {
        AppType::Claude | AppType::Codex | AppType::Gemini => true,
        _ => false,
    }
}

} // verus!
