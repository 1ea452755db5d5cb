use girl_agent::text::{is_blank, to_lower, trim_str};
use girl_agent::config::{profile_subtitle, sort_by_slug, ProfileConfig};
use girl_agent::paths::{app_dir_parts, OsKind};
use girl_agent::presets::{
    communication, find_llm_preset, llm_preset_table, llm_presets, modes, slugify, stages,
};

fn cfg(slug: &str, name: &str) -> ProfileConfig {
    ProfileConfig {
        slug: slug.to_string(),
        name: name.to_string(),
        age: 20,
        nationality: String::new(),
        tz: String::new(),
        mode: "bot".to_string(),
        stage: String::new(),
        created_at: None,
    }
}

#[test]
fn profiles_sorted_by_slug_stably() {
    let v = vec![
        cfg("masha", "1"),
        cfg("arina", "2"),
        cfg("Zoe", "3"),
        cfg("arina", "4"),
        cfg("", "5"),
        cfg("ärina", "6"),
        cfg("arin", "7"),
    ];
    let r = sort_by_slug(v);
    let got: Vec<(String, String)> = r.iter().map(|p| (p.slug.clone(), p.name.clone())).collect();
    let want: Vec<(String, String)> = [
        ("", "5"),
        ("Zoe", "3"),
        ("arin", "7"),
        ("arina", "2"),
        ("arina", "4"),
        ("masha", "1"),
        ("ärina", "6"),
    ]
    .iter()
    .map(|(a, b)| (a.to_string(), b.to_string()))
    .collect();
    assert_eq!(got, want);
    let mut std_sorted: Vec<ProfileConfig> = r.clone();
    std_sorted.sort_by(|a, b| a.slug.cmp(&b.slug));
    assert_eq!(
        std_sorted.iter().map(|p| p.name.clone()).collect::<Vec<_>>(),
        r.iter().map(|p| p.name.clone()).collect::<Vec<_>>()
    );
    assert!(sort_by_slug(Vec::new()).is_empty());
}

#[test]
fn profile_subtitles() {
    let mut p = cfg("a", "A");
    assert_eq!(profile_subtitle(&p), "—");
    p.tz = "Europe/Kyiv".to_string();
    assert_eq!(profile_subtitle(&p), "Europe/Kyiv");
    p.nationality = "UA".to_string();
    assert_eq!(profile_subtitle(&p), "UA · Europe/Kyiv");
    p.stage = "convinced".to_string();
    assert_eq!(profile_subtitle(&p), "UA · Europe/Kyiv · convinced");
    p.tz = String::new();
    assert_eq!(profile_subtitle(&p), "UA · convinced");
}

#[test]
fn slugs_of_names() {
    assert_eq!(slugify("Masha"), "masha");
    assert_eq!(slugify("  Anna Maria  "), "anna-maria");
    assert_eq!(slugify("A--B!!"), "a-b");
    assert_eq!(slugify("--x--"), "x");
    assert_eq!(slugify("Маша"), "persona");
    assert_eq!(slugify(""), "persona");
    assert_eq!(slugify("   "), "persona");
    assert_eq!(slugify("Élan Vital 2"), "lan-vital-2");
    assert_eq!(slugify("R2-D2"), "r2-d2");
}

#[test]
fn slugify_twice_is_slugify_once() {
    for name in ["Masha", "  Anna Maria  ", "A--B!!", "Маша", "", "\u{212A}ate", "R2-D2", "x y-z"] {
        let once = slugify(name);
        assert_eq!(slugify(&once), once);
    }
}

#[test]
fn slug_uses_std_trim_and_lowercase() {
    // KELVIN SIGN lower-cases to an ASCII 'k'; NBSP is trimmed as whitespace.
    assert_eq!(slugify("\u{212A}ate"), "kate");
    assert_eq!(slugify("\u{a0}Ivy\u{a0}"), "ivy");
    assert_eq!(slugify("\u{a0}a\u{a0}b"), "a-b");
}

#[test]
fn slug_of_slug_is_itself() {
    for name in ["Anna Maria", "  --Hello, World!-- ", "Маша", "x", "R2-D2", ""] {
        let s = slugify(name);
        assert_eq!(slugify(&s), s);
        assert!(!s.is_empty());
        assert!(!s.starts_with('-') && !s.ends_with('-') && !s.contains("--"));
        assert!(s.chars().all(|c| c.is_ascii_alphanumeric() || c == '-'));
    }
}

#[test]
fn option_lists() {
    let ids: Vec<&str> = llm_presets().iter().map(|c| c.id).collect();
    assert_eq!(
        ids,
        vec!["openai", "anthropic", "openrouter", "deepseek", "groq", "google", "xai", "ollama", "lmstudio"]
    );
    assert_eq!(llm_presets()[7].label, "Ollama (локально)");
    let stage_ids: Vec<&str> = stages().iter().map(|c| c.id).collect();
    assert_eq!(stage_ids[1], "tg-given-cold");
    assert_eq!(stage_ids.len(), 8);
    assert_eq!(stages()[7].hint, "");
    assert_eq!(communication().len(), 5);
    assert_eq!(communication()[3].id, "clingy");
    assert_eq!(modes().iter().map(|c| c.id).collect::<Vec<_>>(), vec!["bot", "userbot"]);
    let table_ids: Vec<&str> = llm_preset_table().iter().map(|p| p.id).collect();
    assert_eq!(table_ids, ids);
}

#[test]
fn provider_lookup() {
    let a = find_llm_preset("anthropic").unwrap();
    assert_eq!(a.proto, "anthropic");
    assert!(a.api_key_required);
    let o = find_llm_preset("ollama").unwrap();
    assert!(!o.api_key_required);
    assert_eq!(o.default_api_key, Some("ollama"));
    assert_eq!(o.base_url, Some("http://localhost:11434/v1"));
    assert!(find_llm_preset("OpenAI").is_none());
    assert!(find_llm_preset("").is_none());
}

#[test]
fn app_dirs_per_os() {
    let s = |x: &str| Some(x.to_string());
    assert_eq!(app_dir_parts(OsKind::Windows, s("C:\\R"), s("/h"), None), vec!["C:\\R", "girl-agent"]);
    assert_eq!(app_dir_parts(OsKind::Windows, None, s("/h"), s("/x")), vec!["."]);
    assert_eq!(
        app_dir_parts(OsKind::MacOs, s("A"), s("/Users/u"), s("/x")),
        vec!["/Users/u", "Library", "Application Support", "girl-agent"]
    );
    assert_eq!(app_dir_parts(OsKind::MacOs, None, None, None), vec!["."]);
    assert_eq!(app_dir_parts(OsKind::Other, None, s("/home/u"), s("/xdg")), vec!["/xdg", "girl-agent"]);
    assert_eq!(
        app_dir_parts(OsKind::Other, None, s("/home/u"), None),
        vec!["/home/u", ".local", "share", "girl-agent"]
    );
    assert_eq!(app_dir_parts(OsKind::Other, s("A"), None, None), vec!["."]);
}

#[test]
fn trim_and_lowercase_match_std() {
    let samples = [
        "", " ", "\t\n x \r\u{b}\u{c}", "\u{85}a\u{a0}", "\u{1680}\u{2000}b\u{200a}\u{2028}",
        "\u{2029}c\u{202f}\u{205f}\u{3000}", "\u{200b}zero-width\u{200b}", "  Mixed CASE 9 ",
        "ÀÉÎ Straße", "\u{212A}elvin", "İstanbul",
    ];
    for s in samples {
        assert_eq!(trim_str(s), s.trim(), "{s:?}");
        assert_eq!(is_blank(s), s.trim().is_empty(), "{s:?}");
        assert_eq!(to_lower(s), s.to_lowercase(), "{s:?}");
    }
    assert_eq!(to_lower("ABC-xyz_09"), "abc-xyz_09");
}
