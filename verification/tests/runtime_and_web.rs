use girl_agent::runtime_client::{
    build_command, command_payload, stdout_closed_event, stdout_line_event, BotLauncher,
    BotSpawnConfig,
};
use girl_agent::tray::poll_event;
use girl_agent::types::RuntimeEvent;
use girl_agent::web::{check_token, dashboard, index_page, landing, IndexPage};

fn spawn_config(launcher: BotLauncher, extra: &[&str]) -> BotSpawnConfig {
    BotSpawnConfig {
        launcher,
        profile_slug: "arina".to_string(),
        cwd: None,
        data_root: Some("/data".to_string()),
        extra_args: extra.iter().map(|s| s.to_string()).collect(),
    }
}

#[test]
fn npx_command_line() {
    let c = build_command(&spawn_config(BotLauncher::Npx, &[]), false);
    assert_eq!(c.program, "npx");
    assert_eq!(c.args, vec!["--yes", "@thesashadev/girl-agent", "--profile=arina", "--json-events"]);
    let w = build_command(&spawn_config(BotLauncher::Npx, &["--practice"]), true);
    assert_eq!(w.program, "npx.cmd");
    assert_eq!(
        w.args,
        vec!["--yes", "@thesashadev/girl-agent", "--profile=arina", "--json-events", "--practice"]
    );
}

#[test]
fn node_command_line() {
    let l = BotLauncher::Node { cli_path: "/src/dist/cli.js".to_string() };
    let c = build_command(&spawn_config(l.clone(), &["-v", "x"]), false);
    assert_eq!(c.program, "node");
    assert_eq!(c.args, vec!["/src/dist/cli.js", "--profile=arina", "--json-events", "-v", "x"]);
    assert_eq!(build_command(&spawn_config(l, &[]), true).program, "node.exe");
}

#[test]
fn command_lines_for_stdin() {
    assert_eq!(command_payload("pause").as_deref(), Some(":pause\n"));
    assert_eq!(command_payload("  :stage convinced \t").as_deref(), Some(":stage convinced\n"));
    assert_eq!(command_payload("\n status \n").as_deref(), Some(":status\n"));
    assert_eq!(command_payload(":"), Some(":\n".to_string()));
    assert_eq!(command_payload(""), None);
    assert_eq!(command_payload("   \t\n"), None);
}

fn parsed(kind: &str) -> RuntimeEvent {
    RuntimeEvent {
        kind: kind.to_string(),
        text: Some("t".to_string()),
        chat_id: Some(serde_json::Value::from(42)),
        reason: None,
        score: None,
        stage: None,
        profile: None,
        paused: Some(true),
        ok: None,
        t: Some(5),
    }
}

#[test]
fn stdout_lines_become_events() {
    assert!(stdout_line_event("   ".to_string(), None).is_none());
    assert!(stdout_line_event("".to_string(), Some(parsed("ready"))).is_none());
    let ev = stdout_line_event("{\"type\":\"ready\"}".to_string(), Some(parsed("ready"))).unwrap();
    assert_eq!(ev.kind, "ready");
    assert_eq!(ev.paused, Some(true));
    assert_eq!(ev.chat_id, Some(serde_json::Value::from(42)));
    let info = stdout_line_event(" npm WARN deprecated ".to_string(), None).unwrap();
    assert_eq!(info.kind, "info");
    assert_eq!(info.text.as_deref(), Some(" npm WARN deprecated "));
    assert!(info.chat_id.is_none() && info.paused.is_none() && info.t.is_none());
    assert_eq!(info.pretty_log(), "i  npm WARN deprecated ");
}

#[test]
fn closed_stream_event() {
    let ev = stdout_closed_event();
    assert_eq!(ev.kind, "stopped");
    assert_eq!(ev.text.as_deref(), Some("bot stdout closed"));
    assert!(ev.is_log_line());
}

#[test]
fn tokens_guard_the_dashboard() {
    let tok = "s3cr3t";
    assert!(check_token(tok, &Some("s3cr3t".to_string())));
    assert!(!check_token(tok, &Some("s3cr3".to_string())));
    assert!(!check_token(tok, &Some("s3cr3t ".to_string())));
    assert!(!check_token(tok, &None));
    assert_eq!(index_page(tok, &None), IndexPage::Landing);
    assert_eq!(index_page(tok, &Some("nope".to_string())), IndexPage::Unauthorized);
    assert_eq!(index_page(tok, &Some("s3cr3t".to_string())), IndexPage::Dashboard);
    for given in [None, Some("x".to_string()), Some(tok.to_string()), Some(String::new())] {
        assert_eq!(index_page(tok, &given) == IndexPage::Dashboard, check_token(tok, &given));
    }
}

#[test]
fn dashboard_template_receives_the_token() {
    let shell = "<a href=\"/ws?token=%%TOKEN%%\">%%TOKEN%%</a>%%TOKEN%";
    assert_eq!(dashboard(shell, "abc"), "<a href=\"/ws?token=abc\">abc</a>%%TOKEN%");
    assert_eq!(dashboard("no placeholder", "abc"), "no placeholder");
    assert_eq!(dashboard("%%TOKEN%%%%TOKEN%%", "%%"), "%%%%");
    assert_eq!(dashboard("%%%TOKEN%%", "t"), "%t");
    assert_eq!(landing("<h1>hi</h1>"), "<h1>hi</h1>");
}

#[test]
fn no_tray_events() {
    assert_eq!(poll_event(), None);
}
