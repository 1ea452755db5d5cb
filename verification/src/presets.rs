//! Option lists of the installer wizard (LLM providers, relationship stages,
//! communication styles, Telegram modes), the provider metadata the wizard
//! fills defaults from, and the slug a profile folder is named by.

use vstd::prelude::*;

use crate::text::{
    all_ascii, ascii_lower, chars_of, is_ascii_upper, lemma_trim_untouched, lower_text,
    no_ascii_upper, push_char, to_lower, trim_str, trimmed,
};

verus! {

/// One entry of a pick list: the id written to the config, the label shown,
/// and a hint.
#[derive(Debug, Clone, Copy)]
pub struct Choice {
    pub id: &'static str,
    pub label: &'static str,
    pub hint: &'static str,
}

/// The characters of a choice's fields.
pub struct ChoiceView {
    pub id: Seq<char>,
    pub label: Seq<char>,
    pub hint: Seq<char>,
}

impl View for Choice {
    type V = ChoiceView;

    open spec fn view(&self) -> ChoiceView {
        ChoiceView { id: self.id@, label: self.label@, hint: self.hint@ }
    }
}

/// The views of a list of choices.
pub open spec fn choice_views(v: Seq<Choice>) -> Seq<ChoiceView> {
    v.map_values(|c: Choice| c@)
}

pub open spec fn cv(id: Seq<char>, label: Seq<char>, hint: Seq<char>) -> ChoiceView {
    ChoiceView { id, label, hint }
}

fn choice(id: &'static str, label: &'static str, hint: &'static str) -> (r: Choice)
    ensures
        r@ == cv(id@, label@, hint@),
{
    Choice { id, label, hint }
}

/// The LLM providers offered.
pub open spec fn llm_presets_spec() -> Seq<ChoiceView> {
    seq![
        cv("openai"@, "OpenAI"@, "ChatGPT API · нужен ключ"@),
        cv("anthropic"@, "Anthropic"@, "Anthropic API · нужен ключ"@),
        cv("openrouter"@, "OpenRouter"@, "много моделей одним ключом"@),
        cv("deepseek"@, "DeepSeek"@, "дёшево, нужен ключ"@),
        cv("groq"@, "Groq"@, "быстро, нужен ключ"@),
        cv("google"@, "Google AI"@, "Gemini · нужен ключ"@),
        cv("xai"@, "xAI (Grok)"@, "нужен ключ"@),
        cv("ollama"@, "Ollama (локально)"@, "ключ не нужен"@),
        cv("lmstudio"@, "LM Studio (локально)"@, "ключ не нужен"@),
    ]
}

/// The LLM providers offered.
pub fn llm_presets() -> (r: Vec<Choice>)
    ensures
        choice_views(r@) == llm_presets_spec(),
{
    let r = vec![
        choice("openai", "OpenAI", "ChatGPT API · нужен ключ"),
        choice("anthropic", "Anthropic", "Anthropic API · нужен ключ"),
        choice("openrouter", "OpenRouter", "много моделей одним ключом"),
        choice("deepseek", "DeepSeek", "дёшево, нужен ключ"),
        choice("groq", "Groq", "быстро, нужен ключ"),
        choice("google", "Google AI", "Gemini · нужен ключ"),
        choice("xai", "xAI (Grok)", "нужен ключ"),
        choice("ollama", "Ollama (локально)", "ключ не нужен"),
        choice("lmstudio", "LM Studio (локально)", "ключ не нужен"),
    ];
    assert(choice_views(r@) =~= llm_presets_spec());
    r
}

/// The relationship stages offered.
pub open spec fn stages_spec() -> Seq<ChoiceView> {
    seq![
        cv("met-irl-got-tg"@, "встретились ирл, дала тг"@, "самый ранний этап"@),
        cv("tg-given-cold"@, "тг есть, ещё холодно"@, "пишет нечасто, осторожна"@),
        cv("tg-given-warming"@, "тг, теплеет"@, "интерес растёт"@),
        cv("convinced"@, "уговорил/а"@, "согласилась встретиться"@),
        cv("first-date-done"@, "первое свидание было"@, "увиделись"@),
        cv("dating-early"@, "встречаемся, ранний этап"@, "несколько недель"@),
        cv("dating-stable"@, "стабильные отношения"@, ""@),
        cv("long-term"@, "долгие отношения"@, ""@),
    ]
}

/// The relationship stages offered.
pub fn stages() -> (r: Vec<Choice>)
    ensures
        choice_views(r@) == stages_spec(),
{
    let r = vec![
        choice("met-irl-got-tg", "встретились ирл, дала тг", "самый ранний этап"),
        choice("tg-given-cold", "тг есть, ещё холодно", "пишет нечасто, осторожна"),
        choice("tg-given-warming", "тг, теплеет", "интерес растёт"),
        choice("convinced", "уговорил/а", "согласилась встретиться"),
        choice("first-date-done", "первое свидание было", "увиделись"),
        choice("dating-early", "встречаемся, ранний этап", "несколько недель"),
        choice("dating-stable", "стабильные отношения", ""),
        choice("long-term", "долгие отношения", ""),
    ];
    assert(choice_views(r@) =~= stages_spec());
    r
}

/// The communication styles offered.
pub open spec fn communication_spec() -> Seq<ChoiceView> {
    seq![
        cv("normal"@, "обычное"@, "среднее по больнице"@),
        cv("cute"@, "милая"@, "мягкая, нежная"@),
        cv("alt"@, "альт"@, "сухо, без лишнего"@),
        cv("clingy"@, "прилипчивая"@, "пишет первой"@),
        cv("chatty"@, "болтливая"@, "длинные сообщения"@),
    ]
}

/// The communication styles offered.
pub fn communication() -> (r: Vec<Choice>)
    ensures
        choice_views(r@) == communication_spec(),
{
    let r = vec![
        choice("normal", "обычное", "среднее по больнице"),
        choice("cute", "милая", "мягкая, нежная"),
        choice("alt", "альт", "сухо, без лишнего"),
        choice("clingy", "прилипчивая", "пишет первой"),
        choice("chatty", "болтливая", "длинные сообщения"),
    ];
    assert(choice_views(r@) =~= communication_spec());
    r
}

/// The Telegram modes offered.
pub open spec fn modes_spec() -> Seq<ChoiceView> {
    seq![
        cv("bot"@, "бот"@, "Telegram Bot API, проще"@),
        cv("userbot"@, "юзербот"@, "MTProto, нужны api id/hash"@),
    ]
}

/// The Telegram modes offered.
pub fn modes() -> (r: Vec<Choice>)
    ensures
        choice_views(r@) == modes_spec(),
{
    let r = vec![
        choice("bot", "бот", "Telegram Bot API, проще"),
        choice("userbot", "юзербот", "MTProto, нужны api id/hash"),
    ];
    assert(choice_views(r@) =~= modes_spec());
    r
}

/// What the wizard knows of an LLM provider.
#[derive(Debug, Clone, Copy)]
pub struct LlmPreset {
    pub id: &'static str,
    /// API protocol: `openai` or `anthropic`.
    pub proto: &'static str,
    pub default_model: &'static str,
    pub base_url: Option<&'static str>,
    pub default_api_key: Option<&'static str>,
    pub api_key_required: bool,
}

/// The characters of an optional static string.
pub open spec fn opt_view(o: Option<&'static str>) -> Option<Seq<char>> {
    match o {
        Some(s) => Some(s@),
        None => None,
    }
}

/// The characters of a provider's fields.
pub struct LlmPresetView {
    pub id: Seq<char>,
    pub proto: Seq<char>,
    pub default_model: Seq<char>,
    pub base_url: Option<Seq<char>>,
    pub default_api_key: Option<Seq<char>>,
    pub api_key_required: bool,
}

impl View for LlmPreset {
    type V = LlmPresetView;

    open spec fn view(&self) -> LlmPresetView {
        LlmPresetView {
            id: self.id@,
            proto: self.proto@,
            default_model: self.default_model@,
            base_url: opt_view(self.base_url),
            default_api_key: opt_view(self.default_api_key),
            api_key_required: self.api_key_required,
        }
    }
}

pub open spec fn pv(
    id: Seq<char>,
    proto: Seq<char>,
    default_model: Seq<char>,
    base_url: Seq<char>,
    default_api_key: Option<Seq<char>>,
    api_key_required: bool,
) -> LlmPresetView {
    LlmPresetView {
        id,
        proto,
        default_model,
        base_url: Some(base_url),
        default_api_key,
        api_key_required,
    }
}

/// The provider metadata, one entry per id of `llm_presets`.
pub open spec fn llm_preset_table_spec() -> Seq<LlmPresetView> {
    seq![
        pv("openai"@, "openai"@, "gpt-4o-mini"@, "https://api.openai.com/v1"@, None, true),
        pv(
            "anthropic"@,
            "anthropic"@,
            ""@,
            "https://api.anthropic.com"@,
            None,
            true,
        ),
        pv(
            "openrouter"@,
            "openai"@,
            "openai/gpt-4o-mini"@,
            "https://openrouter.ai/api/v1"@,
            None,
            true,
        ),
        pv("deepseek"@, "openai"@, "deepseek-chat"@, "https://api.deepseek.com/v1"@, None, true),
        pv(
            "groq"@,
            "openai"@,
            "llama-3.3-70b-versatile"@,
            "https://api.groq.com/openai/v1"@,
            None,
            true,
        ),
        pv(
            "google"@,
            "openai"@,
            "gemini-2.0-flash"@,
            "https://generativelanguage.googleapis.com/v1beta/openai/"@,
            None,
            true,
        ),
        pv("xai"@, "openai"@, "grok-2-latest"@, "https://api.x.ai/v1"@, None, true),
        pv(
            "ollama"@,
            "openai"@,
            "llama3.1"@,
            "http://localhost:11434/v1"@,
            Some("ollama"@),
            false,
        ),
        pv(
            "lmstudio"@,
            "openai"@,
            "local-model"@,
            "http://localhost:1234/v1"@,
            Some("lm-studio"@),
            false,
        ),
    ]
}

fn preset(
    id: &'static str,
    proto: &'static str,
    default_model: &'static str,
    base_url: &'static str,
    default_api_key: Option<&'static str>,
    api_key_required: bool,
) -> (r: LlmPreset)
    ensures
        r@ == pv(
            id@,
            proto@,
            default_model@,
            base_url@,
            opt_view(default_api_key),
            api_key_required,
        ),
{
    LlmPreset {
        id,
        proto,
        default_model,
        base_url: Some(base_url),
        default_api_key,
        api_key_required,
    }
}

/// The provider metadata.
pub fn llm_preset_table() -> (r: Vec<LlmPreset>)
    ensures
        r@.map_values(|p: LlmPreset| p@) == llm_preset_table_spec(),
{
    let r = vec![
        preset("openai", "openai", "gpt-4o-mini", "https://api.openai.com/v1", None, true),
        preset(
            "anthropic",
            "anthropic",
            "",
            "https://api.anthropic.com",
            None,
            true,
        ),
        preset(
            "openrouter",
            "openai",
            "openai/gpt-4o-mini",
            "https://openrouter.ai/api/v1",
            None,
            true,
        ),
        preset("deepseek", "openai", "deepseek-chat", "https://api.deepseek.com/v1", None, true),
        preset(
            "groq",
            "openai",
            "llama-3.3-70b-versatile",
            "https://api.groq.com/openai/v1",
            None,
            true,
        ),
        preset(
            "google",
            "openai",
            "gemini-2.0-flash",
            "https://generativelanguage.googleapis.com/v1beta/openai/",
            None,
            true,
        ),
        preset("xai", "openai", "grok-2-latest", "https://api.x.ai/v1", None, true),
        preset("ollama", "openai", "llama3.1", "http://localhost:11434/v1", Some("ollama"), false),
        preset(
            "lmstudio",
            "openai",
            "local-model",
            "http://localhost:1234/v1",
            Some("lm-studio"),
            false,
        ),
    ];
    assert(r@.map_values(|p: LlmPreset| p@) =~= llm_preset_table_spec());
    r
}

/// The first entry of `table` with id `id`.
pub open spec fn first_with_id(table: Seq<LlmPresetView>, id: Seq<char>) -> Option<LlmPresetView>
    decreases table.len(),
{
    if table.len() == 0 {
        None
    } else if table[0].id == id {
        Some(table[0])
    } else {
        first_with_id(table.drop_first(), id)
    }
}

/// The provider metadata for `id`, if the provider is known.
pub open spec fn preset_for(id: Seq<char>) -> Option<LlmPresetView> {
    first_with_id(llm_preset_table_spec(), id)
}

/// Looks a provider up by id.
pub fn find_llm_preset(id: &str) -> (r: Option<LlmPreset>)
    ensures
        match r {
            Some(p) => preset_for(id@) == Some(p@),
            None => preset_for(id@) is None,
        },
{
    let table = llm_preset_table();
    let ghost tv = table@.map_values(|p: LlmPreset| p@);
    let mut i: usize = 0;
    assert(tv.skip(0) =~= tv);
    while i < table.len()
        invariant
            i <= table@.len(),
            tv == table@.map_values(|p: LlmPreset| p@),
            tv == llm_preset_table_spec(),
            preset_for(id@) == first_with_id(tv.skip(i as int), id@),
        decreases table@.len() - i,
    {
        assert(tv.skip(i as int)[0] == table@[i as int]@);
        assert(tv.skip(i as int).drop_first() =~= tv.skip(i + 1));
        if crate::text::str_eq(table[i].id, id) {
            return Some(table[i]);
        }
        i = i + 1;
    }
    assert(tv.skip(i as int) =~= Seq::<LlmPresetView>::empty());
    None
}

/// `char::is_ascii_alphanumeric`.
pub open spec fn is_ascii_alnum(c: char) -> bool {
    ('a' <= c && c <= 'z') || ('A' <= c && c <= 'Z') || ('0' <= c && c <= '9')
}

fn ascii_alnum(c: char) -> (r: bool)
    ensures
        r == is_ascii_alnum(c),
{
    ('a' <= c && c <= 'z') || ('A' <= c && c <= 'Z') || ('0' <= c && c <= '9')
}

/// Left-to-right scan of the slug: ASCII letters and digits are kept, and
/// each run of other characters after the first kept one becomes one `-`.
pub open spec fn slug_scan(s: Seq<char>) -> Seq<char>
    decreases s.len(),
{
    if s.len() == 0 {
        Seq::empty()
    } else {
        let acc = slug_scan(s.drop_last());
        let ch = s.last();
        if is_ascii_alnum(ch) {
            acc.push(ch)
        } else if acc.len() > 0 && acc.last() != '-' {
            acc.push('-')
        } else {
            acc
        }
    }
}

/// `s` without its trailing dashes.
pub open spec fn strip_trailing_dashes(s: Seq<char>) -> Seq<char>
    decreases s.len(),
{
    if s.len() > 0 && s.last() == '-' {
        strip_trailing_dashes(s.drop_last())
    } else {
        s
    }
}

/// The slug of an already trimmed and lower-cased name; `persona` when
/// nothing is left.
pub open spec fn slug_text(s: Seq<char>) -> Seq<char> {
    let out = strip_trailing_dashes(slug_scan(s));
    if out.len() == 0 {
        "persona"@
    } else {
        out
    }
}

/// The slug of a display name: trimmed, lower-cased, then `slug_text`.
pub open spec fn slug_of(name: Seq<char>) -> Seq<char> {
    slug_text(lower_text(trimmed(name)))
}

/// A well-formed slug: non-empty, ASCII letters, digits and single dashes,
/// no capitals, neither starting nor ending with a dash.
pub open spec fn is_slug(s: Seq<char>) -> bool {
    &&& s.len() > 0
    &&& dash_separated(s)
    &&& s.last() != '-'
    &&& no_ascii_upper(s)
}

proof fn lemma_scan_no_upper(s: Seq<char>)
    requires
        no_ascii_upper(s),
    ensures
        no_ascii_upper(slug_scan(s)),
    decreases s.len(),
{
    if s.len() > 0 {
        let d = s.drop_last();
        assert forall|i: int| 0 <= i < d.len() implies !is_ascii_upper(#[trigger] d[i]) by {
            assert(d[i] == s[i]);
        }
        lemma_scan_no_upper(d);
        let acc = slug_scan(d);
        let r = slug_scan(s);
        assert forall|i: int| 0 <= i < r.len() implies !is_ascii_upper(#[trigger] r[i]) by {
            if i < acc.len() {
                assert(r[i] == acc[i]);
            }
        }
    }
}

proof fn lemma_strip_no_upper(t: Seq<char>)
    requires
        no_ascii_upper(t),
    ensures
        no_ascii_upper(strip_trailing_dashes(t)),
    decreases t.len(),
{
    if t.len() > 0 && t.last() == '-' {
        let d = t.drop_last();
        assert forall|i: int| 0 <= i < d.len() implies !is_ascii_upper(#[trigger] d[i]) by {
            assert(d[i] == t[i]);
        }
        lemma_strip_no_upper(d);
    }
}

/// The slug of a string without ASCII capitals is a well-formed slug.
proof fn lemma_slug_text_is_slug(s: Seq<char>)
    requires
        no_ascii_upper(s),
    ensures
        is_slug(slug_text(s)),
{
    lemma_slug_shape(s);
    lemma_scan_no_upper(s);
    lemma_strip_no_upper(slug_scan(s));
    if strip_trailing_dashes(slug_scan(s)).len() == 0 {
        reveal_strlit("persona");
    }
}

/// A slug is a fixed point: taking the slug of a well-formed slug (which is
/// what `slugify` returns) gives it back, so `slugify(slugify(x)) ==
/// slugify(x)`.
pub proof fn lemma_slug_fixed(s: Seq<char>)
    requires
        is_slug(s),
    ensures
        slug_of(s) == s,
{
    assert(is_ascii_alnum(s[0]) || s[0] == '-');
    assert(is_ascii_alnum(s.last()) || s.last() == '-');
    lemma_trim_untouched(s);
    assert(all_ascii(s)) by {
        assert forall|i: int| 0 <= i < s.len() implies (#[trigger] s[i] as int) < 128 by {
            assert(is_ascii_alnum(s[i]) || s[i] == '-');
        }
    }
    let m = s.map_values(|c: char| ascii_lower(c));
    assert(m =~= s) by {
        assert forall|i: int| 0 <= i < s.len() implies #[trigger] m[i] == s[i] by {
            assert(!is_ascii_upper(s[i]));
        }
    }
    lemma_scan_fixed(s);
    assert(strip_trailing_dashes(s) == s);
}

/// The shape of a slug: ASCII letters, digits and dashes, not starting with
/// a dash and never two dashes in a row.
pub open spec fn dash_separated(t: Seq<char>) -> bool {
    &&& forall|i: int| 0 <= i < t.len() ==> is_ascii_alnum(#[trigger] t[i]) || t[i] == '-'
    &&& t.len() > 0 ==> t[0] != '-'
    &&& forall|i: int| 0 <= i < t.len() - 1 ==> !(#[trigger] t[i] == '-' && t[i + 1] == '-')
}

proof fn lemma_scan_shape(s: Seq<char>)
    ensures
        dash_separated(slug_scan(s)),
    decreases s.len(),
{
    if s.len() > 0 {
        lemma_scan_shape(s.drop_last());
        let acc = slug_scan(s.drop_last());
        let r = slug_scan(s);
        assert forall|i: int| 0 <= i < r.len() implies is_ascii_alnum(#[trigger] r[i]) || r[i] == '-' by {
            if i < acc.len() {
                assert(r[i] == acc[i]);
            }
        }
        assert forall|i: int| 0 <= i < r.len() - 1 implies !(#[trigger] r[i] == '-' && r[i + 1] == '-') by {
            if i + 1 < acc.len() {
                assert(r[i] == acc[i] && r[i + 1] == acc[i + 1]);
            } else {
                assert(r[i] == acc[i]);
            }
        }
    }
}

proof fn lemma_strip_shape(t: Seq<char>)
    requires
        dash_separated(t),
    ensures
        dash_separated(strip_trailing_dashes(t)),
        strip_trailing_dashes(t).len() > 0 ==> strip_trailing_dashes(t).last() != '-',
    decreases t.len(),
{
    if t.len() > 0 && t.last() == '-' {
        let d = t.drop_last();
        assert forall|i: int| 0 <= i < d.len() - 1 implies !(#[trigger] d[i] == '-' && d[i + 1] == '-') by {
            assert(d[i] == t[i] && d[i + 1] == t[i + 1]);
        }
        lemma_strip_shape(d);
    }
}

proof fn lemma_scan_fixed(t: Seq<char>)
    requires
        dash_separated(t),
    ensures
        slug_scan(t) == t,
    decreases t.len(),
{
    if t.len() > 0 {
        let d = t.drop_last();
        assert forall|i: int| 0 <= i < d.len() - 1 implies !(#[trigger] d[i] == '-' && d[i + 1] == '-') by {
            assert(d[i] == t[i] && d[i + 1] == t[i + 1]);
        }
        lemma_scan_fixed(d);
        if !is_ascii_alnum(t.last()) {
            assert(t.last() == '-');
            assert(t.len() >= 2);
            assert(d.last() == t[t.len() - 2]);
        }
        assert(d.push(t.last()) =~= t);
    }
}

/// Every slug is non-empty, made of ASCII letters, digits and single dashes,
/// and neither starts nor ends with a dash.
pub proof fn lemma_slug_shape(s: Seq<char>)
    ensures
        slug_text(s).len() > 0,
        dash_separated(slug_text(s)),
        slug_text(s).last() != '-',
{
    lemma_scan_shape(s);
    lemma_strip_shape(slug_scan(s));
    if strip_trailing_dashes(slug_scan(s)).len() == 0 {
        reveal_strlit("persona");
    }
}

/// A slug is already in slug form: taking the slug of a slug gives it back.
pub proof fn lemma_slug_idempotent(s: Seq<char>)
    ensures
        slug_text(slug_text(s)) == slug_text(s),
{
    let t = slug_text(s);
    lemma_slug_shape(s);
    lemma_scan_fixed(t);
    assert(strip_trailing_dashes(t) == t);
}

/// The folder name of a profile called `name`.
pub fn slugify(name: &str) -> (r: String)
    ensures
        r@ == slug_of(name@),
        is_slug(r@),
{
    let lower = to_lower(trim_str(name));
    proof {
        lemma_slug_text_is_slug(lower@);
    }
    let cs = chars_of(lower.as_str());
    let mut out = String::new();
    let mut prev_dash = false;
    let mut i: usize = 0;
    while i < cs.len()
        invariant
            cs@ == lower@,
            i <= cs.len(),
            out@ == slug_scan(cs@.subrange(0, i as int)),
            prev_dash == (out@.len() > 0 && out@.last() == '-'),
        decreases cs.len() - i,
    {
        let ch = cs[i];
        proof {
            assert(cs@.subrange(0, i + 1).drop_last() =~= cs@.subrange(0, i as int));
        }
        if ascii_alnum(ch) {
            push_char(&mut out, ch);
            prev_dash = false;
        } else if out.as_str().is_empty() == false && !prev_dash {
            push_char(&mut out, '-');
            prev_dash = true;
        }
        i = i + 1;
    }
    assert(cs@.subrange(0, i as int) =~= cs@);
    let mut chars = chars_of(out.as_str());
    while chars.len() > 0 && chars[chars.len() - 1] == '-'
        invariant
            strip_trailing_dashes(chars@) == strip_trailing_dashes(slug_scan(lower@)),
        decreases chars.len(),
    {
        let ghost before = chars@;
        chars.pop();
        assert(chars@ =~= before.drop_last());
    }
    if chars.len() == 0 {
        crate::text::owned("persona")
    } else {
        crate::text::string_of(chars.as_slice())
    }
}

} // verus!
