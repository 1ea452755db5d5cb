//! The profile `config.json` the installer writes, built from the wizard's
//! form.
//!
//! The application serialises the value and writes the file.

use vstd::prelude::*;

use crate::text::owned;
use crate::presets::preset_for;
use crate::wizard::WizardData;

verus! {

/// The `telegram` section: a bot token in bot mode, API credentials and a
/// phone number otherwise.
#[derive(Debug, Clone)]
pub enum TelegramConfig {
    Bot { token: String },
    User { api_id: String, api_hash: String, phone: String },
}

/// The `llm` section.
#[derive(Debug, Clone)]
pub struct LlmConfig {
    pub preset_id: String,
    pub proto: String,
    pub base_url: Option<String>,
    pub api_key: String,
    pub model: String,
}

/// The whole `config.json` of a new profile.
#[derive(Debug, Clone)]
pub struct InstallConfig {
    pub slug: String,
    pub name: String,
    pub age: u8,
    pub nationality: String,
    pub tz: String,
    pub mode: String,
    pub stage: String,
    pub communication_preset: String,
    pub created_at: String,
    pub llm: LlmConfig,
    pub telegram: TelegramConfig,
    pub vibe: String,
    pub persona_notes: String,
    pub notifications: String,
    pub privacy: String,
}

/// The API protocol of the form's provider (`openai` or `anthropic`),
/// `openai` when the provider is unknown.
pub open spec fn llm_proto_of(d: WizardData) -> Seq<char> {
    match preset_for(d.llm_preset@) {
        Some(p) => p.proto,
        None => "openai"@,
    }
}

/// The shape of every string chrono's `to_rfc3339` writes for a UTC instant: at least
/// `YYYY-MM-DDTHH:MM:SS+00:00` long, and ending in the UTC offset `+00:00`.
pub open spec fn utc_rfc3339_shape(s: Seq<char>) -> bool {
    &&& s.len() >= 25
    &&& s.subrange(s.len() - 6, s.len() as int) == "+00:00"@
}

/// The profile config for the form `d`, created at `created_at`.
pub open spec fn config_matches(c: InstallConfig, d: WizardData, created_at: Seq<char>) -> bool {
    &&& c.slug == d.slug
    &&& c.name == d.name
    &&& c.age == d.age
    &&& c.nationality == d.nationality
    &&& c.tz == d.tz
    &&& c.mode == d.mode
    &&& c.stage == d.stage
    &&& c.communication_preset == d.communication
    &&& c.created_at@ == created_at
    &&& c.llm.preset_id == d.llm_preset
    &&& c.llm.proto@ == llm_proto_of(d)
    &&& c.llm.base_url is None
    &&& c.llm.api_key == d.llm_api_key
    &&& c.llm.model == d.llm_model
    &&& if d.mode@ == "bot"@ {
        c.telegram matches TelegramConfig::Bot { token } && token == d.tg_token
    } else {
        c.telegram matches TelegramConfig::User { api_id, api_hash, phone } && api_id
            == d.tg_api_id && api_hash == d.tg_api_hash && phone == d.tg_phone
    }
    &&& c.vibe@.len() == 0
    &&& c.persona_notes@.len() == 0
    &&& c.notifications@ == "normal"@
    &&& c.privacy@ == "owner-only"@
}

/// What `chrono` writes for the UTC instant `secs` seconds and `nanos`
/// nanoseconds after the Unix epoch (`DateTime::<Utc>::from_timestamp`, then
/// `to_rfc3339`); `None` when chrono cannot represent that instant.
pub uninterp spec fn utc_rfc3339(secs: i64, nanos: u32) -> Option<Seq<char>>;

/// The last second of the year 9999, the end of the range in which every
/// instant has a four-digit year.
pub const LAST_FOUR_DIGIT_SECOND: i64 = 253402300799;

/// Formats a Unix timestamp as an RFC 3339 string in UTC.
///
/// Calls `chrono::DateTime::<Utc>::from_timestamp(secs, nanos)`, which
/// returns `None` for an instant out of chrono's range or a nanosecond count
/// it rejects, and `to_rfc3339` on the instant it gives. The contract names
/// the result, states that every instant from the epoch to the end of the
/// year 9999 with `nanos` below one second is accepted, and that every string
/// written has the shape `YYYY-MM-DDTHH:MM:SS[.fff]+00:00` (a year of four or
/// more digits, so at least 25 characters, ending in the UTC offset). Which
/// date and time the digits spell is left to the name.
#[verifier::external_body]
fn rfc3339_utc(secs: i64, nanos: u32) -> (r: Option<String>)
    ensures
        match r {
            Some(s) => utc_rfc3339(secs, nanos) == Some(s@),
            None => utc_rfc3339(secs, nanos) is None,
        },
        r matches Some(s) ==> utc_rfc3339_shape(s@),
        0 <= secs <= LAST_FOUR_DIGIT_SECOND && nanos < 1_000_000_000 ==> r is Some,
{
    match chrono::DateTime::<chrono::Utc>::from_timestamp(secs, nanos) {
        Some(t) => Some(t.to_rfc3339()),
        None => None,
    }
}

/// The profile config for the form `d`, stamped `created_at`.
pub fn build_config(d: &WizardData, created_at: String) -> (r: InstallConfig)
    ensures
        config_matches(r, *d, created_at@),
{
    let telegram = if crate::text::str_eq(d.mode.as_str(), "bot") {
        TelegramConfig::Bot { token: d.tg_token.clone() }
    } else {
        TelegramConfig::User {
            api_id: d.tg_api_id.clone(),
            api_hash: d.tg_api_hash.clone(),
            phone: d.tg_phone.clone(),
        }
    };
    InstallConfig {
        slug: d.slug.clone(),
        name: d.name.clone(),
        age: d.age,
        nationality: d.nationality.clone(),
        tz: d.tz.clone(),
        mode: d.mode.clone(),
        stage: d.stage.clone(),
        communication_preset: d.communication.clone(),
        created_at,
        llm: LlmConfig {
            preset_id: d.llm_preset.clone(),
            proto: owned(d.current_llm_proto()),
            base_url: None,
            api_key: d.llm_api_key.clone(),
            model: d.llm_model.clone(),
        },
        telegram,
        vibe: String::new(),
        persona_notes: String::new(),
        notifications: owned("normal"),
        privacy: owned("owner-only"),
    }
}

/// The profile config for the form `d`, stamped with the instant `secs`
/// seconds and `nanos` nanoseconds after the Unix epoch (the application reads
/// the clock). `None` when that instant cannot be written, which never
/// happens for an instant between the epoch and the end of the year 9999.
pub fn build_config_json(d: &WizardData, secs: i64, nanos: u32) -> (r: Option<InstallConfig>)
    ensures
        match utc_rfc3339(secs, nanos) {
            Some(t) => r matches Some(c) && config_matches(c, *d, t),
            None => r is None,
        },
        r matches Some(c) ==> utc_rfc3339_shape(c.created_at@),
        0 <= secs <= LAST_FOUR_DIGIT_SECOND && nanos < 1_000_000_000 ==> r is Some,
{
    match rfc3339_utc(secs, nanos) {
        Some(now) => Some(build_config(d, now)),
        None => None,
    }
}

} // verus!
