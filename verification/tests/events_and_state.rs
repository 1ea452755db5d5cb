use girl_agent::state::{AppState, DashboardState, LogLine, LOG_RETAIN};
use girl_agent::types::{ProfileSummary, RelationshipScore, RuntimeEvent, Snapshot, StageRef};

fn event(kind: &str, text: Option<&str>) -> RuntimeEvent {
    RuntimeEvent {
        kind: kind.to_string(),
        text: text.map(|t| t.to_string()),
        chat_id: None,
        reason: None,
        score: None,
        stage: None,
        profile: None,
        paused: None,
        ok: None,
        t: None,
    }
}

fn profile(name: &str) -> ProfileSummary {
    ProfileSummary {
        slug: name.to_lowercase(),
        name: name.to_string(),
        age: 19,
        mode: "bot".to_string(),
        nationality: "RU".to_string(),
        tz: "Europe/Moscow".to_string(),
        stage: StageRef { id: "convinced".to_string(), label: "уговорил/а".to_string() },
    }
}

#[test]
fn default_score_is_zero() {
    let s = RelationshipScore::default();
    assert_eq!(s, RelationshipScore { interest: 0, trust: 0, attraction: 0, annoyance: 0, cringe: 0 });
    let snap = Snapshot::default();
    assert!(!snap.paused);
    assert!(snap.profile.is_none());
    assert!(snap.stage.is_none());
    assert_eq!(snap.score, s);
}

#[test]
fn log_kinds() {
    for k in ["incoming", "outgoing", "ignored", "error", "info", "response", "ready", "stopped"] {
        assert!(event(k, None).is_log_line(), "{k}");
    }
    for k in ["snapshot", "score", "", "Incoming"] {
        assert!(!event(k, None).is_log_line(), "{k}");
    }
}

#[test]
fn pretty_log_renders_each_kind() {
    assert_eq!(event("incoming", Some("hi")).pretty_log(), "← hi");
    assert_eq!(event("outgoing", Some("hey")).pretty_log(), "→ hey");
    let mut ign = event("ignored", Some("x"));
    ign.reason = Some("spam".to_string());
    assert_eq!(ign.pretty_log(), "· ignore (spam): x");
    assert_eq!(event("ignored", Some("x")).pretty_log(), "· ignore (): x");
    assert_eq!(event("error", Some("boom")).pretty_log(), "! boom");
    let mut bad = event("response", Some("no"));
    bad.ok = Some(false);
    assert_eq!(bad.pretty_log(), "? err: no");
    let mut good = event("response", Some("yes"));
    good.ok = Some(true);
    assert_eq!(good.pretty_log(), "? yes");
    assert_eq!(event("response", Some("x")).pretty_log(), "? x");
    assert_eq!(event("ready", Some("ignored text")).pretty_log(), "i ready");
    assert_eq!(event("stopped", None).pretty_log(), "i stopped");
    assert_eq!(event("info", Some("note")).pretty_log(), "i note");
    assert_eq!(event("whatever", None).pretty_log(), "i ");
}

#[test]
fn ts_string_is_utc_clock() {
    let mut e = event("info", None);
    assert_eq!(e.ts_string(), "00:00:00");
    e.t = Some(3_723_000);
    assert_eq!(e.ts_string(), "01:02:03");
    e.t = Some(90_061_999);
    assert_eq!(e.ts_string(), "01:01:01");
    e.t = Some(86_399_000);
    assert_eq!(e.ts_string(), "23:59:59");
}

#[test]
fn ingest_updates_fields_and_log() {
    let mut st = AppState::new();
    let mut ev = event("ready", None);
    ev.profile = Some(profile("Arina"));
    ev.score = Some(RelationshipScore { interest: 5, trust: 4, attraction: 3, annoyance: 2, cringe: 1 });
    ev.t = Some(1_000);
    st.ingest(ev);
    let snap: DashboardState = st.snapshot();
    assert!(snap.running);
    assert!(!snap.paused);
    assert_eq!(snap.profile.as_ref().unwrap().name, "Arina");
    assert_eq!(snap.score.interest, 5);
    assert_eq!(snap.logs.len(), 1);
    assert_eq!(snap.logs[0].kind, "ready");
    assert_eq!(snap.logs[0].time, "00:00:01");
    assert_eq!(snap.logs[0].text, "i ready");

    let mut pause = event("snapshot", None);
    pause.paused = Some(true);
    pause.stage = Some(StageRef { id: "long-term".to_string(), label: "долгие".to_string() });
    st.ingest(pause);
    let snap = st.snapshot();
    assert!(snap.paused);
    assert!(snap.running);
    assert_eq!(snap.stage.as_ref().unwrap().id, "long-term");
    assert_eq!(snap.profile.as_ref().unwrap().name, "Arina");
    assert_eq!(snap.score.interest, 5);
    assert_eq!(snap.logs.len(), 1, "non-log kinds are not logged");

    st.ingest(event("stopped", Some("bye")));
    let snap = st.snapshot();
    assert!(!snap.running);
    assert_eq!(snap.logs.len(), 2);
    assert_eq!(snap.logs[1].text, "i stopped");
}

#[test]
fn set_running_only_changes_the_flag() {
    let mut st = AppState::new();
    st.ingest(event("incoming", Some("a")));
    st.set_running(true);
    let snap = st.snapshot();
    assert!(snap.running);
    assert_eq!(snap.logs.len(), 1);
    st.set_running(false);
    assert!(!st.snapshot().running);
}

#[test]
fn log_keeps_newest_lines() {
    let mut st = AppState::new();
    let total = LOG_RETAIN + 37;
    for i in 0..total {
        st.ingest(event("incoming", Some(&format!("m{i}"))));
        st.ingest(event("score", Some("not a log line")));
    }
    let snap = st.snapshot();
    assert_eq!(snap.logs.len(), LOG_RETAIN);
    let texts: Vec<String> = snap.logs.iter().map(|l: &LogLine| l.text.clone()).collect();
    assert_eq!(texts[0], "← m37");
    assert_eq!(texts[LOG_RETAIN - 1], format!("← m{}", total - 1));
    for (j, t) in texts.iter().enumerate() {
        assert_eq!(t, &format!("← m{}", j + 37));
    }
}

#[test]
fn dashboard_default_is_empty() {
    let d = DashboardState::default();
    assert!(d.profile.is_none() && d.stage.is_none() && !d.paused && !d.running);
    assert!(d.logs.is_empty());
    assert_eq!(d.score, RelationshipScore::default());
}
