use girl_agent::installer::{nav_row, NavRow};
use girl_agent::install_config::{build_config, build_config_json, TelegramConfig};
use girl_agent::installer::{
    id_of, label_of, labels, next_step, outcome_of, prev_step, step_index, step_reached, Action,
    InstallOutcome, InstallReport, Model, Msg, Step,
};
use girl_agent::preflight::{node_version_ok, parse_major, PreflightReport};
use girl_agent::presets::{communication, llm_presets, modes, stages};
use girl_agent::wizard::{NameMode, UserbotAuthSource, WizardData};

const ALL: [Step; 8] = [
    Step::Welcome,
    Step::Preflight,
    Step::Telegram,
    Step::Llm,
    Step::Persona,
    Step::Summary,
    Step::Installing,
    Step::Done,
];

fn report() -> PreflightReport {
    PreflightReport {
        node_path: Some("/usr/bin/node".to_string()),
        node_version: Some("v20.11.1".to_string()),
        node_ok: true,
        npm_path: None,
        npm_version: None,
    }
}

#[test]
fn wizard_defaults() {
    let d = WizardData::default();
    assert_eq!(d.mode, "bot");
    assert_eq!(d.userbot_source, UserbotAuthSource::Owner);
    assert_eq!(d.llm_preset, "openai");
    assert_eq!(d.nationality, "RU");
    assert_eq!(d.name_mode, NameMode::Random);
    assert_eq!(d.age, 18);
    assert_eq!(d.tz, "Europe/Moscow");
    assert_eq!(d.stage, "tg-given-cold");
    assert_eq!(d.communication, "normal");
    assert_eq!(d.sleep_preset, "standard");
    assert_eq!(d.privacy, "owner-only");
    assert!(d.slug.is_empty() && d.name.is_empty() && !d.tg_needs_2fa);
}

#[test]
fn telegram_validity() {
    let mut d = WizardData::default();
    assert!(!d.is_telegram_valid());
    d.tg_token = "  ".to_string();
    assert!(!d.is_telegram_valid());
    d.tg_token = "123:ABC".to_string();
    assert!(d.is_telegram_valid());
    d.mode = "userbot".to_string();
    d.tg_phone = "+7900".to_string();
    assert!(!d.is_telegram_valid(), "a userbot needs a session string");
    d.tg_session_string = "sess".to_string();
    assert!(d.is_telegram_valid());
    d.userbot_source = UserbotAuthSource::Own;
    assert!(!d.is_telegram_valid());
    d.tg_api_id = "1".to_string();
    d.tg_api_hash = "h".to_string();
    assert!(d.is_telegram_valid());
    d.mode = "other".to_string();
    assert!(!d.is_telegram_valid());
}

#[test]
fn llm_validity_and_defaults() {
    let mut d = WizardData::default();
    assert!(!d.is_llm_valid());
    assert!(d.current_llm_requires_key());
    assert_eq!(d.current_llm_proto(), "openai");
    d.llm_api_key = "sk".to_string();
    assert!(d.is_llm_valid());
    d.llm_preset = "anthropic".to_string();
    assert_eq!(d.current_llm_proto(), "anthropic");
    d.llm_preset = "ollama".to_string();
    d.llm_api_key = String::new();
    assert!(d.is_llm_valid());
    assert!(!d.current_llm_requires_key());
    d.apply_llm_preset_defaults();
    assert_eq!(d.llm_api_key, "ollama");
    assert_eq!(d.llm_model, "llama3.1");
    assert_eq!(d.llm_base_url, "http://localhost:11434/v1");
    d.llm_preset = "groq".to_string();
    d.apply_llm_preset_defaults();
    assert_eq!(d.llm_model, "llama3.1", "user values are kept");
    assert_eq!(d.llm_api_key, "ollama");
    d.llm_preset = "nope".to_string();
    assert!(!d.is_llm_valid());
    assert!(d.current_llm_requires_key());
    assert_eq!(d.current_llm_proto(), "openai");
    let before = d.clone();
    d.apply_llm_preset_defaults();
    assert_eq!(d.llm_model, before.llm_model);
}

#[test]
fn persona_validity_and_slug() {
    let mut d = WizardData::default();
    assert!(!d.is_persona_valid());
    d.name = " Маша ".to_string();
    assert!(d.is_persona_valid());
    d.age = 13;
    assert!(!d.is_persona_valid());
    d.age = 99;
    assert!(d.is_persona_valid());
    d.age = 100;
    assert!(!d.is_persona_valid());
    d.age = 14;
    d.tz = String::new();
    assert!(!d.is_persona_valid());
    d.name = "Lena K".to_string();
    d.refresh_slug();
    assert_eq!(d.slug, "lena-k");
}

#[test]
fn node_versions() {
    assert_eq!(parse_major("v20.10.0"), Some(20));
    assert_eq!(parse_major("v18.19.1"), Some(18));
    assert_eq!(parse_major("vv22"), Some(22));
    assert_eq!(parse_major("+21.0"), Some(21));
    assert_eq!(parse_major("v+21.0"), Some(21));
    assert_eq!(parse_major("v007.1"), Some(7));
    assert_eq!(parse_major("v4294967295.0"), Some(u32::MAX));
    assert_eq!(parse_major("v4294967296.0"), None);
    assert_eq!(parse_major("v"), None);
    assert_eq!(parse_major("v.20"), None);
    assert_eq!(parse_major("+"), None);
    assert_eq!(parse_major("v-20"), None);
    assert_eq!(parse_major("v2a.0"), None);
    assert_eq!(parse_major("v20 "), None);
    for v in ["v20.10.0", "vv22", "+21.0", "v007.1", "v4294967296.0", "v", "+", "v2a.0"] {
        assert_eq!(parse_major(v), v.trim_start_matches('v').split('.').next().unwrap().parse::<u32>().ok(), "{v}");
    }
    assert!(node_version_ok(&Some("v20.0.0".to_string())));
    assert!(node_version_ok(&Some("v22.1.0".to_string())));
    assert!(!node_version_ok(&Some("v19.9.0".to_string())));
    assert!(!node_version_ok(&Some("garbage".to_string())));
    assert!(!node_version_ok(&None));
}

#[test]
fn steps_order() {
    assert_eq!(next_step(Step::Welcome), Step::Preflight);
    assert_eq!(next_step(Step::Summary), Step::Installing);
    assert_eq!(next_step(Step::Done), Step::Done);
    assert_eq!(prev_step(Step::Welcome), Step::Welcome);
    assert_eq!(prev_step(Step::Done), Step::Summary);
    assert_eq!(prev_step(Step::Installing), Step::Summary);
    for s in ALL {
        if s != Step::Installing && s != Step::Done {
            assert_eq!(prev_step(next_step(s)), s);
        }
        assert!(step_index(next_step(s)) >= step_index(s));
    }
    assert_eq!(step_index(Step::Llm), 3);
    assert_eq!(step_index(Step::Done), 5);
    assert!(step_reached(Step::Llm, Step::Telegram));
    assert!(step_reached(Step::Llm, Step::Llm));
    assert!(!step_reached(Step::Llm, Step::Persona));
    assert!(step_reached(Step::Done, Step::Summary));
}

#[test]
fn pick_list_helpers() {
    let m = modes();
    assert_eq!(labels(&m), vec!["бот", "юзербот"]);
    assert_eq!(label_of(&m, "userbot"), "юзербот");
    assert_eq!(label_of(&m, "nope"), "nope");
    assert_eq!(id_of(&m, "бот"), "bot");
    assert_eq!(id_of(&m, "bot"), "");
    let s = stages();
    assert_eq!(id_of(&s, &label_of(&s, "convinced")), "convinced");
    assert!(labels(&[]).is_empty());
}

#[test]
fn label_then_id_gives_the_id_back() {
    for list in [modes(), stages(), communication(), llm_presets()] {
        for c in &list {
            assert_eq!(id_of(&list, &label_of(&list, c.id)), c.id);
        }
        assert_eq!(id_of(&list, "no such label"), "");
    }
}

#[test]
fn wizard_flow() {
    let mut m = Model::new(report());
    assert_eq!(m.step, Step::Welcome);
    assert!(m.update(Msg::Next).is_none());
    assert_eq!(m.step, Step::Preflight);
    m.update(Msg::Back);
    assert_eq!(m.step, Step::Welcome);
    m.update(Msg::NameChanged("Anna Maria".to_string()));
    assert_eq!(m.data.slug, "anna-maria");
    m.update(Msg::AgeChanged(21));
    assert_eq!(m.data.age, 21);
    m.update(Msg::AgeChanged(300));
    assert_eq!(m.data.age, 255);
    m.update(Msg::ModeChanged("userbot".to_string()));
    m.update(Msg::TgPhoneChanged("+7".to_string()));
    m.update(Msg::LlmPresetChanged("groq".to_string()));
    m.update(Msg::LlmKeyChanged("k".to_string()));
    m.update(Msg::StageChanged("convinced".to_string()));
    assert_eq!(m.data.mode, "userbot");
    assert_eq!(m.data.tg_phone, "+7");
    assert_eq!(m.data.llm_preset, "groq");
    assert_eq!(m.data.stage, "convinced");
    for _ in 0..5 {
        m.update(Msg::Next);
    }
    assert_eq!(m.step, Step::Summary);
    assert_eq!(m.data.slug, "anna-maria");
    match m.update(Msg::StartInstall) {
        Some(Action::RunInstall(d)) => {
            assert_eq!(d.slug, "anna-maria");
            assert_eq!(d.name, "Anna Maria");
        }
        other => panic!("unexpected {other:?}"),
    }
    assert!(m.installing);
    assert_eq!(m.step, Step::Installing);
    let o = InstallOutcome { ok: true, log: "added 1 package".to_string(), config_path: "/c".to_string() };
    assert!(m.update(Msg::InstallFinished(o)).is_none());
    assert!(!m.installing);
    assert_eq!(m.step, Step::Done);
    assert_eq!(m.install.as_ref().unwrap().log, "added 1 package");
    assert!(matches!(m.update(Msg::OpenLink("https://nodejs.org/")), Some(Action::OpenLink("https://nodejs.org/"))));
    assert!(matches!(m.update(Msg::LaunchAndQuit), Some(Action::LaunchAndQuit)));
    assert!(matches!(m.update(Msg::Quit), Some(Action::Quit)));
}

#[test]
fn summary_shows_slug_of_the_name() {
    let mut m = Model::new(report());
    m.data.name = "Zoë Ray".to_string();
    for _ in 0..5 {
        m.update(Msg::Next);
    }
    assert_eq!(m.step, Step::Summary);
    assert_eq!(m.data.slug, "zo-ray");
}

#[test]
fn install_outcomes() {
    let ok = outcome_of(Ok(InstallReport {
        config_path: "/d/arina/config.json".to_string(),
        npm_log: "$ npm install".to_string(),
        npm_ok: false,
    }));
    assert!(ok.ok);
    assert_eq!(ok.log, "$ npm install");
    assert_eq!(ok.config_path, "/d/arina/config.json");
    let err = outcome_of(Err("create /x: denied".to_string()));
    assert!(!err.ok);
    assert_eq!(err.log, "create /x: denied");
    assert_eq!(err.config_path, "");
}

#[test]
fn config_for_bot_and_userbot() {
    let mut d = WizardData::default();
    d.name = "Arina".to_string();
    d.slug = "arina".to_string();
    d.tg_token = "1:AB".to_string();
    d.llm_api_key = "sk".to_string();
    d.llm_model = "m".to_string();
    d.persona_notes = "ignored".to_string();
    d.privacy = "public".to_string();
    let c = build_config(&d, "2026-05-04T12:00:00+00:00".to_string());
    assert_eq!(c.slug, "arina");
    assert_eq!(c.name, "Arina");
    assert_eq!(c.age, 18);
    assert_eq!(c.communication_preset, "normal");
    assert_eq!(c.created_at, "2026-05-04T12:00:00+00:00");
    assert_eq!(c.llm.preset_id, "openai");
    assert_eq!(c.llm.proto, "openai");
    assert!(c.llm.base_url.is_none());
    assert_eq!(c.llm.api_key, "sk");
    assert_eq!(c.llm.model, "m");
    assert!(matches!(&c.telegram, TelegramConfig::Bot { token } if token == "1:AB"));
    assert_eq!(c.vibe, "");
    assert_eq!(c.persona_notes, "");
    assert_eq!(c.notifications, "normal");
    assert_eq!(c.privacy, "owner-only");
    d.mode = "userbot".to_string();
    d.tg_api_id = "42".to_string();
    d.tg_api_hash = "h".to_string();
    d.tg_phone = "+1".to_string();
    let u = build_config_json(&d, 1_700_000_000, 0).unwrap();
    match &u.telegram {
        TelegramConfig::User { api_id, api_hash, phone } => {
            assert_eq!((api_id.as_str(), api_hash.as_str(), phone.as_str()), ("42", "h", "+1"));
        }
        other => panic!("unexpected {other:?}"),
    }
    assert!(u.created_at.contains('T'));
    assert!(u.created_at.len() >= 20);
}

#[test]
fn config_proto_follows_the_provider() {
    let mut d = WizardData::default();
    d.llm_preset = "anthropic".to_string();
    assert_eq!(build_config(&d, "t".to_string()).llm.proto, "anthropic");
    assert_eq!(build_config(&d, "t".to_string()).llm.preset_id, "anthropic");
    d.llm_preset = "ollama".to_string();
    assert_eq!(build_config(&d, "t".to_string()).llm.proto, "openai");
    d.llm_preset = "unknown".to_string();
    assert_eq!(build_config(&d, "t".to_string()).llm.proto, "openai");
    assert_eq!(build_config(&d, "t".to_string()).llm.proto, d.current_llm_proto());
}

#[test]
fn created_at_is_utc_rfc3339() {
    let d = WizardData::default();
    let c = build_config_json(&d, 0, 0).unwrap();
    assert_eq!(c.created_at, "1970-01-01T00:00:00+00:00");
    let c = build_config_json(&d, 1_700_000_000, 500_000_000).unwrap();
    assert_eq!(c.created_at, "2023-11-14T22:13:20.500+00:00");
    let c = build_config_json(&d, 253_402_300_799, 999_999_999).unwrap();
    assert_eq!(c.created_at, "9999-12-31T23:59:59.999999999+00:00");
    let c = build_config_json(&d, 1_700_000_000, 123_000).unwrap();
    assert_eq!(c.created_at, "2023-11-14T22:13:20.000123+00:00");
}

#[test]
fn instant_out_of_range_gives_no_config() {
    let d = WizardData::default();
    assert!(build_config_json(&d, i64::MAX, 0).is_none());
    assert!(build_config_json(&d, 0, 2_000_000_000).is_none());
    // Before the epoch is still a valid instant.
    let c = build_config_json(&d, -1, 0).unwrap();
    assert_eq!(c.created_at, "1969-12-31T23:59:59+00:00");
}

#[test]
fn navigation_rows() {
    let ok = report();
    let mut missing = report();
    missing.node_ok = false;
    assert_eq!(nav_row(Step::Welcome, &missing), NavRow::Begin);
    assert_eq!(nav_row(Step::Preflight, &ok), NavRow::BackNext);
    assert_eq!(nav_row(Step::Preflight, &missing), NavRow::InstallNode);
    assert_eq!(nav_row(Step::Telegram, &missing), NavRow::BackNext);
    assert_eq!(nav_row(Step::Persona, &ok), NavRow::BackNext);
    assert_eq!(nav_row(Step::Summary, &ok), NavRow::Install);
    assert_eq!(nav_row(Step::Installing, &ok), NavRow::Waiting);
    assert_eq!(nav_row(Step::Done, &ok), NavRow::Finish);
}
