//! The dashboard window's state machine: what each user or runtime message
//! does to the window's state, and which effects the application must then
//! perform (pull a snapshot, send a command, start the runtime, minimise ...).
//!
//! The application owns the window, the runtime process and the settings
//! file; it feeds messages to [`Model::update`] and performs the returned
//! [`Effect`]s in order.

use vstd::prelude::*;

use crate::config::ProfileConfig;
use crate::settings::{MinimizeTarget, Settings};
use crate::state::DashboardState;
use crate::text::{blank, owned, push_decimal, trim_str, trimmed, decimal};
use crate::types::{RelationshipScore, RuntimeEvent};

verus! {

/// Everything the window reacts to.
#[derive(Debug)]
pub enum Message {
    DashboardTick(DashboardState),
    EventReceived(RuntimeEvent),
    EventStreamClosed,
    CommandInputChanged(String),
    SubmitCommand,
    CommandSent(Result<(), String>),
    TogglePause,
    OpenWebUi,
    AskMinimize,
    MinimizeChosen(MinimizeTarget),
    MinimizeCancelled,
    MinimizeRememberToggled(bool),
    StartBot,
    BotStarted(Result<(), String>),
    Refresh,
    SelectProfile(String),
    OpenProfilePicker,
    CloseProfilePicker,
    Noop,
}

/// What the application must do after an update, in order.
#[derive(Debug)]
pub enum Effect {
    /// Read a fresh snapshot of the shared state and deliver it as
    /// `Message::DashboardTick`.
    PullSnapshot,
    /// Send a `:command` line to the runtime.
    SendCommand(String),
    /// Open a URL in the user's browser.
    OpenUrl(String),
    /// Minimise the window to the taskbar or hide it to the tray.
    Minimize(MinimizeTarget),
    /// Write `Model::settings` to disk.
    SaveSettings,
    /// Start the runtime with this profile.
    StartBot(String),
    /// Re-read the profile list from disk and hand it to `Model::set_profiles`.
    ReloadProfiles,
    /// Deliver this message to `Model::update`.
    Emit(Message),
}

/// The window's state.
pub struct Model {
    pub dashboard: DashboardState,
    pub command_input: String,
    pub minimize_prompt_visible: bool,
    pub minimize_remember: bool,
    pub profile_picker_visible: bool,
    pub settings: Settings,
    pub profiles: Vec<ProfileConfig>,
    pub web_url: Option<String>,
}

/// The remembered profile still exists among `profiles`.
pub open spec fn last_profile_exists(settings: Settings, profiles: Seq<ProfileConfig>) -> bool {
    settings.last_profile matches Some(slug) && exists|i: int|
        0 <= i < profiles.len() && #[trigger] profiles[i].slug@ == slug@
}

/// The picker is shown when there are two or more profiles and the
/// remembered one is gone (or none is remembered).
pub open spec fn picker_needed(settings: Settings, profiles: Seq<ProfileConfig>) -> bool {
    profiles.len() >= 2 && !last_profile_exists(settings, profiles)
}

/// The runtime starts by itself when no picker is shown and the profile to
/// load is known: the remembered one exists, or there is exactly one.
pub open spec fn auto_start(settings: Settings, profiles: Seq<ProfileConfig>) -> bool {
    !picker_needed(settings, profiles) && (last_profile_exists(settings, profiles)
        || profiles.len() == 1)
}

/// The profile `StartBot` starts: the remembered one, else the first listed.
pub open spec fn start_slug(settings: Settings, profiles: Seq<ProfileConfig>) -> Option<String> {
    match settings.last_profile {
        Some(s) => Some(s),
        None => if profiles.len() > 0 {
            Some(profiles[0].slug)
        } else {
            None
        },
    }
}

/// The settings after the user chose `target` with "remember" ticked.
pub open spec fn remember_choice(settings: Settings, target: MinimizeTarget) -> Settings {
    Settings { remember_minimize_choice: true, minimize_to: target, ..settings }
}

/// Where the window goes without asking, if the choice is remembered.
pub open spec fn remembered_target(settings: Settings) -> Option<MinimizeTarget> {
    if settings.remember_minimize_choice {
        Some(settings.minimize_to)
    } else {
        None
    }
}

/// The command that flips the pause state.
pub open spec fn pause_command(paused: bool) -> Seq<char> {
    if paused {
        ":resume"@
    } else {
        ":pause"@
    }
}

/// The window title.
pub open spec fn title_text(d: DashboardState) -> Seq<char> {
    match d.profile {
        Some(p) => "girl-agent · "@ + p.name@,
        None => "girl-agent"@,
    }
}

/// The status shown next to the dot in the top bar.
pub open spec fn status_text(d: DashboardState) -> Seq<char> {
    if !d.running {
        "stopped"@
    } else if d.paused {
        "paused"@
    } else {
        "running"@
    }
}

/// The identity card's headline and sub-line.
pub open spec fn identity_text(d: DashboardState) -> (Seq<char>, Seq<char>) {
    match d.profile {
        Some(p) => (
            p.name@,
            decimal(p.age as nat) + " · "@ + p.mode@ + if p.tz@.len() == 0 {
                Seq::empty()
            } else {
                " · "@ + p.tz@
            },
        ),
        None => ("(нет профиля)"@, "откройте инсталлер чтобы создать персону"@),
    }
}

/// The stage label shown on the identity card.
pub open spec fn stage_text(d: DashboardState) -> Seq<char> {
    match d.stage {
        Some(s) => s.label@,
        None => "—"@,
    }
}

impl Model {
    /// The window state at start-up, with the effects to run first: pull
    /// the shared state, then start the runtime when the profile is known.
    pub fn new(settings: Settings, profiles: Vec<ProfileConfig>, web_url: Option<String>) -> (r: (
        Model,
        Vec<Effect>,
    ))
        ensures
            r.0.dashboard.profile is None,
            r.0.dashboard.stage is None,
            r.0.dashboard.score == RelationshipScore::zero(),
            !r.0.dashboard.paused,
            !r.0.dashboard.running,
            r.0.dashboard.logs@.len() == 0,
            r.0.command_input@.len() == 0,
            !r.0.minimize_prompt_visible,
            r.0.minimize_remember == settings.remember_minimize_choice,
            r.0.profile_picker_visible == picker_needed(settings, profiles@),
            r.0.settings == settings,
            r.0.profiles == profiles,
            r.0.web_url == web_url,
            r.1@.len() >= 1,
            r.1@[0] is PullSnapshot,
            auto_start(settings, profiles@) ==> r.1@.len() == 2 && r.1@[1] matches Effect::Emit(
                Message::StartBot,
            ),
            !auto_start(settings, profiles@) ==> r.1@.len() == 1,
    {
        let count = profiles.len();
        let mut last_exists = false;
        match &settings.last_profile {
            Some(slug) => {
                let mut i: usize = 0;
                while i < count
                    invariant
                        count == profiles@.len(),
                        i <= count,
                        settings.last_profile == Some(*slug),
                        last_exists == exists|j: int|
                            0 <= j < i && #[trigger] profiles@[j].slug@ == slug@,
                    decreases count - i,
                {
                    if crate::text::str_eq(profiles[i].slug.as_str(), slug.as_str()) {
                        last_exists = true;
                    }
                    i = i + 1;
                }
            },
            None => {},
        }
        let show_picker = count >= 2 && !last_exists;
        let mut effects: Vec<Effect> = Vec::new();
        effects.push(Effect::PullSnapshot);
        if !show_picker && (last_exists || count == 1) {
            effects.push(Effect::Emit(Message::StartBot));
        }
        let model = Model {
            dashboard: DashboardState::default(),
            command_input: String::new(),
            minimize_prompt_visible: false,
            minimize_remember: settings.remember_minimize_choice,
            profile_picker_visible: show_picker,
            settings,
            profiles,
            web_url,
        };
        (model, effects)
    }

    /// The window title: `girl-agent · <name>` once a profile is known.
    pub fn title(&self) -> (r: String)
        ensures
            r@ == title_text(self.dashboard),
    {
        match &self.dashboard.profile {
            Some(p) => {
                let mut t = owned("girl-agent · ");
                t.append(p.name.as_str());
                t
            },
            None => owned("girl-agent"),
        }
    }

    /// Replaces the profile list (after the application re-read it).
    pub fn set_profiles(&mut self, profiles: Vec<ProfileConfig>)
        ensures
            *final(self) == (Model { profiles, ..*old(self) }),
    {
        self.profiles = profiles;
    }

    /// Applies one message; returns the effects to perform, in order.
    pub fn update(&mut self, message: Message) -> (r: Vec<Effect>)
        ensures
            match message {
                Message::DashboardTick(snap) => *final(self) == (Model { dashboard: snap, ..*old(self) })
                    && r@.len() == 0,
                Message::EventReceived(_) => *final(self) == *old(self) && r@.len() == 1
                    && r@[0] is PullSnapshot,
                Message::CommandInputChanged(v) => *final(self) == (Model {
                    command_input: v,
                    ..*old(self)
                }) && r@.len() == 0,
                Message::SubmitCommand => if blank(old(self).command_input@) {
                    *final(self) == *old(self) && r@.len() == 0
                } else {
                    &&& *final(self) == (Model {
                        command_input: final(self).command_input,
                        ..*old(self)
                    })
                    &&& final(self).command_input@.len() == 0
                    &&& r@.len() == 1
                    &&& r@[0] matches Effect::SendCommand(line) && line@ == trimmed(
                        old(self).command_input@,
                    )
                },
                Message::TogglePause => *final(self) == *old(self) && r@.len() == 1 && (
                r@[0] matches Effect::SendCommand(line) && line@ == pause_command(
                    old(self).dashboard.paused,
                )),
                Message::OpenWebUi => *final(self) == *old(self) && match old(self).web_url {
                    Some(url) => r@.len() == 1 && (r@[0] matches Effect::OpenUrl(u) && u == url),
                    None => r@.len() == 0,
                },
                Message::AskMinimize => match remembered_target(old(self).settings) {
                    Some(t) => *final(self) == *old(self) && r@.len() == 1 && r@[0]
                        == Effect::Minimize(t),
                    None => *final(self) == (Model { minimize_prompt_visible: true, ..*old(self) })
                        && r@.len() == 0,
                },
                Message::MinimizeChosen(target) => if old(self).minimize_remember {
                    &&& *final(self) == (Model {
                        minimize_prompt_visible: false,
                        settings: remember_choice(old(self).settings, target),
                        ..*old(self)
                    })
                    &&& r@.len() == 2
                    &&& r@[0] is SaveSettings
                    &&& r@[1] == Effect::Minimize(target)
                } else {
                    *final(self) == (Model { minimize_prompt_visible: false, ..*old(self) })
                        && r@.len() == 1 && r@[0] == Effect::Minimize(target)
                },
                Message::MinimizeCancelled => *final(self) == (Model {
                    minimize_prompt_visible: false,
                    ..*old(self)
                }) && r@.len() == 0,
                Message::MinimizeRememberToggled(v) => *final(self) == (Model {
                    minimize_remember: v,
                    ..*old(self)
                }) && r@.len() == 0,
                Message::StartBot => *final(self) == *old(self) && match start_slug(
                    old(self).settings,
                    old(self).profiles@,
                ) {
                    Some(slug) => r@.len() == 1 && (r@[0] matches Effect::StartBot(s) && s == slug),
                    None => r@.len() == 0,
                },
                Message::Refresh => *final(self) == *old(self) && r@.len() == 1
                    && r@[0] is PullSnapshot,
                Message::SelectProfile(slug) => {
                    &&& *final(self) == (Model {
                        profile_picker_visible: false,
                        settings: Settings { last_profile: Some(slug), ..old(self).settings },
                        ..*old(self)
                    })
                    &&& r@.len() == 2
                    &&& r@[0] is SaveSettings
                    &&& r@[1] matches Effect::Emit(Message::StartBot)
                },
                Message::OpenProfilePicker => *final(self) == (Model {
                    profile_picker_visible: true,
                    ..*old(self)
                }) && r@.len() == 1 && r@[0] is ReloadProfiles,
                Message::CloseProfilePicker => *final(self) == (Model {
                    profile_picker_visible: false,
                    ..*old(self)
                }) && r@.len() == 0,
                _ => *final(self) == *old(self) && r@.len() == 0,
            },
    {
        let mut effects: Vec<Effect> = Vec::new();
        match message {
            Message::DashboardTick(snap) => {
                self.dashboard = snap;
            },
            Message::EventReceived(_ev) => {
                effects.push(Effect::PullSnapshot);
            },
            Message::EventStreamClosed => {},
            Message::CommandInputChanged(v) => {
                self.command_input = v;
            },
            Message::SubmitCommand => {
                let line = owned(trim_str(self.command_input.as_str()));
                if line.as_str().is_empty() {
                    return effects;
                }
                self.command_input = String::new();
                effects.push(Effect::SendCommand(line));
            },
            Message::CommandSent(_) => {},
            Message::TogglePause => {
                let line = if self.dashboard.paused {
                    owned(":resume")
                } else {
                    owned(":pause")
                };
                effects.push(Effect::SendCommand(line));
            },
            Message::OpenWebUi => {
                match &self.web_url {
                    Some(url) => effects.push(Effect::OpenUrl(url.clone())),
                    None => {},
                }
            },
            Message::AskMinimize => {
                if self.settings.remember_minimize_choice {
                    effects.push(Effect::Minimize(self.settings.minimize_to));
                } else {
                    self.minimize_prompt_visible = true;
                }
            },
            Message::MinimizeChosen(target) => {
                self.minimize_prompt_visible = false;
                if self.minimize_remember {
                    self.settings.remember_minimize_choice = true;
                    self.settings.minimize_to = target;
                    effects.push(Effect::SaveSettings);
                }
                effects.push(Effect::Minimize(target));
            },
            Message::MinimizeCancelled => {
                self.minimize_prompt_visible = false;
            },
            Message::MinimizeRememberToggled(v) => {
                self.minimize_remember = v;
            },
            Message::StartBot => {
                let slug = match &self.settings.last_profile {
                    Some(s) => Some(s.clone()),
                    None => if self.profiles.len() > 0 {
                        Some(self.profiles[0].slug.clone())
                    } else {
                        None
                    },
                };
                match slug {
                    Some(s) => effects.push(Effect::StartBot(s)),
                    None => {},
                }
            },
            Message::BotStarted(_) => {},
            Message::Refresh => {
                effects.push(Effect::PullSnapshot);
            },
            Message::SelectProfile(slug) => {
                self.settings.last_profile = Some(slug);
                effects.push(Effect::SaveSettings);
                self.profile_picker_visible = false;
                effects.push(Effect::Emit(Message::StartBot));
            },
            Message::OpenProfilePicker => {
                effects.push(Effect::ReloadProfiles);
                self.profile_picker_visible = true;
            },
            Message::CloseProfilePicker => {
                self.profile_picker_visible = false;
            },
            Message::Noop => {},
        }
        effects
    }
}

/// At start-up with at least one profile the window never sits idle: it
/// either asks which profile to run or starts one by itself, and never both.
pub proof fn lemma_start_up_asks_or_starts(settings: Settings, profiles: Seq<ProfileConfig>)
    requires
        profiles.len() >= 1,
    ensures
        picker_needed(settings, profiles) || auto_start(settings, profiles),
        !(picker_needed(settings, profiles) && auto_start(settings, profiles)),
{
}

/// Who decides at start-up: with two or more profiles and none of them the
/// remembered one, the user is asked; when the remembered profile is listed,
/// or there is only one profile, it starts without asking.
pub proof fn lemma_picker_only_without_a_known_choice(
    settings: Settings,
    profiles: Seq<ProfileConfig>,
)
    ensures
        profiles.len() >= 2 && (settings.last_profile is None || forall|i: int|
            0 <= i < profiles.len() ==> #[trigger] profiles[i].slug@ != settings.last_profile->0@)
            ==> picker_needed(settings, profiles),
        (settings.last_profile matches Some(slug) && exists|i: int|
            0 <= i < profiles.len() && #[trigger] profiles[i].slug@ == slug@) ==> !picker_needed(
            settings,
            profiles,
        ) && auto_start(settings, profiles),
        profiles.len() == 1 ==> !picker_needed(settings, profiles) && auto_start(
            settings,
            profiles,
        ),
        profiles.len() == 0 ==> !picker_needed(settings, profiles) && !auto_start(
            settings,
            profiles,
        ),
{
}

/// Choosing a profile in the picker starts that profile: the `StartBot`
/// that `SelectProfile` emits picks the slug just remembered.
pub proof fn lemma_selected_profile_starts(
    settings: Settings,
    profiles: Seq<ProfileConfig>,
    slug: String,
)
    ensures
        start_slug(Settings { last_profile: Some(slug), ..settings }, profiles) == Some(slug),
{
}

/// A remembered minimise choice is applied without asking again: after the
/// user chose `target` with "remember" ticked, minimising goes to `target`.
pub proof fn lemma_remembered_minimize(settings: Settings, target: MinimizeTarget)
    ensures
        remembered_target(remember_choice(settings, target)) == Some(target),
{
}

/// When the runtime starts by itself at start-up, there is a profile to
/// start it with.
pub proof fn lemma_auto_start_has_profile(settings: Settings, profiles: Seq<ProfileConfig>)
    ensures
        auto_start(settings, profiles) ==> start_slug(settings, profiles) is Some,
{
}

/// A score as the bar draws it: clamped to -100..=100.
pub fn clamp_score(value: i32) -> (r: i32)
    ensures
        r == if value < -100 {
            -100i32
        } else if value > 100 {
            100i32
        } else {
            value
        },
{
    if value < -100 {
        -100
    } else if value > 100 {
        100
    } else {
        value
    }
}

/// How many log lines the dashboard shows at most.
pub const LOG_VIEW_LINES: usize = 120;

/// The index of the first log line shown: only the newest
/// `LOG_VIEW_LINES` are drawn.
pub fn log_view_start(len: usize) -> (r: usize)
    ensures
        r == if len > LOG_VIEW_LINES {
            len - LOG_VIEW_LINES
        } else {
            0
        },
{
    if len > LOG_VIEW_LINES {
        len - LOG_VIEW_LINES
    } else {
        0
    }
}

/// The caption of the pause button: what pressing it will do.
pub open spec fn pause_caption_text(paused: bool) -> Seq<char> {
    if paused {
        "▶ resume"@
    } else {
        "⏸ pause"@
    }
}

/// The caption of the top bar's pause button.
pub fn pause_caption(d: &DashboardState) -> (r: &'static str)
    ensures
        r@ == pause_caption_text(d.paused),
{
    if d.paused {
        "▶ resume"
    } else {
        "⏸ pause"
    }
}

/// The status label of the top bar.
pub fn status_label(d: &DashboardState) -> (r: &'static str)
    ensures
        r@ == status_text(*d),
{
    if !d.running {
        "stopped"
    } else if d.paused {
        "paused"
    } else {
        "running"
    }
}

/// The identity card's headline (the name) and sub-line
/// (`<age> · <mode>[ · <tz>]`).
pub fn identity_lines(d: &DashboardState) -> (r: (String, String))
    ensures
        r.0@ == identity_text(*d).0,
        r.1@ == identity_text(*d).1,
{
    match &d.profile {
        Some(p) => {
            let mut sub = String::new();
            push_decimal(&mut sub, p.age as u64);
            sub.append(" · ");
            sub.append(p.mode.as_str());
            if !p.tz.as_str().is_empty() {
                sub.append(" · ");
                sub.append(p.tz.as_str());
            }
            proof {
                assert(sub@ =~= identity_text(*d).1);
            }
            (p.name.clone(), sub)
        },
        None => (owned("(нет профиля)"), owned("откройте инсталлер чтобы создать персону")),
    }
}

/// The stage label of the identity card, `—` when unknown.
pub fn stage_label(d: &DashboardState) -> (r: String)
    ensures
        r@ == stage_text(*d),
{
    match &d.stage {
        Some(s) => s.label.clone(),
        None => owned("—"),
    }
}

} // verus!
