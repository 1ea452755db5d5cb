use girl_agent::app_model::pause_caption;
use girl_agent::app_model::{
    clamp_score, identity_lines, log_view_start, stage_label, status_label, Effect, Message, Model,
};
use girl_agent::config::ProfileConfig;
use girl_agent::settings::{MinimizeTarget, Settings};
use girl_agent::state::DashboardState;
use girl_agent::types::{ProfileSummary, RuntimeEvent, StageRef};

fn prof(slug: &str) -> ProfileConfig {
    ProfileConfig {
        slug: slug.to_string(),
        name: slug.to_uppercase(),
        age: 20,
        nationality: "RU".to_string(),
        tz: String::new(),
        mode: "bot".to_string(),
        stage: String::new(),
        created_at: None,
    }
}

fn settings(last: Option<&str>, remember: bool) -> Settings {
    Settings {
        last_profile: last.map(|s| s.to_string()),
        remember_minimize_choice: remember,
        minimize_to: MinimizeTarget::Taskbar,
    }
}

fn starts(effects: &[Effect]) -> bool {
    effects.iter().any(|e| matches!(e, Effect::Emit(Message::StartBot)))
}

#[test]
fn settings_default() {
    let s = Settings::default();
    assert!(s.last_profile.is_none());
    assert!(!s.remember_minimize_choice);
    assert_eq!(s.minimize_to, MinimizeTarget::Taskbar);
}

#[test]
fn startup_picker_and_autostart() {
    let (m, e) = Model::new(settings(None, false), vec![], None);
    assert!(!m.profile_picker_visible);
    assert!(matches!(e[0], Effect::PullSnapshot));
    assert_eq!(e.len(), 1);

    let (m, e) = Model::new(settings(None, false), vec![prof("a")], None);
    assert!(!m.profile_picker_visible);
    assert!(starts(&e));

    let (m, e) = Model::new(settings(None, false), vec![prof("a"), prof("b")], None);
    assert!(m.profile_picker_visible);
    assert!(!starts(&e));

    let (m, e) = Model::new(settings(Some("b"), true), vec![prof("a"), prof("b")], None);
    assert!(!m.profile_picker_visible);
    assert!(starts(&e));
    assert!(m.minimize_remember);

    let (m, e) = Model::new(settings(Some("gone"), false), vec![prof("a"), prof("b")], None);
    assert!(m.profile_picker_visible);
    assert!(!starts(&e));

    let (m, e) = Model::new(settings(Some("gone"), false), vec![prof("a")], None);
    assert!(!m.profile_picker_visible);
    assert!(starts(&e));
}

#[test]
fn title_and_labels() {
    let (mut m, _) = Model::new(settings(None, false), vec![], None);
    assert_eq!(m.title(), "girl-agent");
    assert_eq!(status_label(&m.dashboard), "stopped");
    let (name, sub) = identity_lines(&m.dashboard);
    assert_eq!(name, "(нет профиля)");
    assert_eq!(sub, "откройте инсталлер чтобы создать персону");
    assert_eq!(stage_label(&m.dashboard), "—");
    let mut d = DashboardState::default();
    d.running = true;
    d.profile = Some(ProfileSummary {
        slug: "arina".to_string(),
        name: "Арина".to_string(),
        age: 19,
        mode: "userbot".to_string(),
        nationality: "RU".to_string(),
        tz: "Europe/Moscow".to_string(),
        stage: StageRef { id: "x".to_string(), label: "y".to_string() },
    });
    d.stage = Some(StageRef { id: "convinced".to_string(), label: "уговорил/а".to_string() });
    m.update(Message::DashboardTick(d));
    assert_eq!(m.title(), "girl-agent · Арина");
    assert_eq!(status_label(&m.dashboard), "running");
    let (name, sub) = identity_lines(&m.dashboard);
    assert_eq!(name, "Арина");
    assert_eq!(sub, "19 · userbot · Europe/Moscow");
    assert_eq!(stage_label(&m.dashboard), "уговорил/а");
    m.dashboard.paused = true;
    assert_eq!(status_label(&m.dashboard), "paused");
    m.dashboard.profile.as_mut().unwrap().tz = String::new();
    m.dashboard.profile.as_mut().unwrap().age = 105;
    assert_eq!(identity_lines(&m.dashboard).1, "105 · userbot");
}

#[test]
fn commands_from_the_input() {
    let (mut m, _) = Model::new(settings(None, false), vec![], None);
    assert!(m.update(Message::SubmitCommand).is_empty());
    m.update(Message::CommandInputChanged("   ".to_string()));
    assert!(m.update(Message::SubmitCommand).is_empty());
    assert_eq!(m.command_input, "   ");
    m.update(Message::CommandInputChanged("  :stage convinced ".to_string()));
    let e = m.update(Message::SubmitCommand);
    assert!(matches!(&e[..], [Effect::SendCommand(l)] if l == ":stage convinced"));
    assert_eq!(m.command_input, "");
    let e = m.update(Message::TogglePause);
    assert!(matches!(&e[..], [Effect::SendCommand(l)] if l == ":pause"));
    m.dashboard.paused = true;
    let e = m.update(Message::TogglePause);
    assert!(matches!(&e[..], [Effect::SendCommand(l)] if l == ":resume"));
    assert!(m.update(Message::CommandSent(Err("bot is not running".to_string()))).is_empty());
}

#[test]
fn events_and_refresh_pull_snapshots() {
    let (mut m, _) = Model::new(settings(None, false), vec![], None);
    let ev = RuntimeEvent {
        kind: "incoming".to_string(),
        text: None,
        chat_id: None,
        reason: None,
        score: None,
        stage: None,
        profile: None,
        paused: None,
        ok: None,
        t: None,
    };
    assert!(matches!(&m.update(Message::EventReceived(ev))[..], [Effect::PullSnapshot]));
    assert!(matches!(&m.update(Message::Refresh)[..], [Effect::PullSnapshot]));
    assert!(m.update(Message::EventStreamClosed).is_empty());
    assert!(m.update(Message::Noop).is_empty());
    assert!(m.update(Message::BotStarted(Ok(()))).is_empty());
}

#[test]
fn web_ui_link() {
    let (mut m, _) = Model::new(settings(None, false), vec![], None);
    assert!(m.update(Message::OpenWebUi).is_empty());
    let url = "http://127.0.0.1:7777/?token=t".to_string();
    let (mut m, _) = Model::new(settings(None, false), vec![], Some(url.clone()));
    assert!(matches!(&m.update(Message::OpenWebUi)[..], [Effect::OpenUrl(u)] if *u == url));
}

#[test]
fn minimize_flow_and_remembered_choice() {
    let (mut m, _) = Model::new(settings(None, false), vec![], None);
    assert!(m.update(Message::AskMinimize).is_empty());
    assert!(m.minimize_prompt_visible);
    m.update(Message::MinimizeCancelled);
    assert!(!m.minimize_prompt_visible);
    m.update(Message::AskMinimize);
    let e = m.update(Message::MinimizeChosen(MinimizeTarget::Tray));
    assert!(matches!(&e[..], [Effect::Minimize(MinimizeTarget::Tray)]));
    assert!(!m.settings.remember_minimize_choice);
    m.update(Message::MinimizeRememberToggled(true));
    m.update(Message::AskMinimize);
    let e = m.update(Message::MinimizeChosen(MinimizeTarget::Tray));
    assert!(matches!(&e[..], [Effect::SaveSettings, Effect::Minimize(MinimizeTarget::Tray)]));
    assert!(m.settings.remember_minimize_choice);
    assert_eq!(m.settings.minimize_to, MinimizeTarget::Tray);
    let e = m.update(Message::AskMinimize);
    assert!(matches!(&e[..], [Effect::Minimize(MinimizeTarget::Tray)]));
    assert!(!m.minimize_prompt_visible);
}

#[test]
fn picking_a_profile_starts_it() {
    let (mut m, _) = Model::new(settings(None, false), vec![prof("a"), prof("b")], None);
    assert!(m.update(Message::StartBot).iter().any(|e| matches!(e, Effect::StartBot(s) if s == "a")));
    let e = m.update(Message::SelectProfile("b".to_string()));
    assert!(matches!(&e[..], [Effect::SaveSettings, Effect::Emit(Message::StartBot)]));
    assert!(!m.profile_picker_visible);
    assert_eq!(m.settings.last_profile.as_deref(), Some("b"));
    let e = m.update(Message::StartBot);
    assert!(matches!(&e[..], [Effect::StartBot(s)] if s == "b"));
    let (mut empty, _) = Model::new(settings(None, false), vec![], None);
    assert!(empty.update(Message::StartBot).is_empty());
}

#[test]
fn profile_picker_reloads() {
    let (mut m, _) = Model::new(settings(None, false), vec![], None);
    assert!(matches!(&m.update(Message::OpenProfilePicker)[..], [Effect::ReloadProfiles]));
    assert!(m.profile_picker_visible);
    m.set_profiles(vec![prof("z")]);
    assert_eq!(m.profiles.len(), 1);
    m.update(Message::CloseProfilePicker);
    assert!(!m.profile_picker_visible);
}

#[test]
fn score_bar_and_log_window() {
    assert_eq!(clamp_score(150), 100);
    assert_eq!(clamp_score(-101), -100);
    assert_eq!(clamp_score(-7), -7);
    assert_eq!(clamp_score(i32::MIN), -100);
    assert_eq!(log_view_start(0), 0);
    assert_eq!(log_view_start(120), 0);
    assert_eq!(log_view_start(121), 1);
    assert_eq!(log_view_start(500), 380);
}

#[test]
fn pause_button_caption() {
    let mut d = DashboardState::default();
    assert_eq!(pause_caption(&d), "⏸ pause");
    d.paused = true;
    assert_eq!(pause_caption(&d), "▶ resume");
}
