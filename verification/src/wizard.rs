//! The installer wizard's form: what the user entered, its defaults, and the
//! checks that decide whether each page is complete.

use vstd::prelude::*;

use crate::presets::{find_llm_preset, preset_for, slug_of, slugify};
use crate::text::{blank, is_blank, owned, str_eq};

verus! {

/// How the persona's name is chosen.
#[derive(Debug, Clone, Copy, PartialEq, Eq, Structural)]
pub enum NameMode {
    Random,
    Manual,
}

/// Where the userbot's Telegram API credentials come from.
#[derive(Debug, Clone, Copy, PartialEq, Eq, Structural)]
pub enum UserbotAuthSource {
    /// The project's proxy: no api id / hash needed.
    Owner,
    /// The user's own api_id / api_hash from my.telegram.org.
    Own,
}

/// The wizard's form state.
#[derive(Debug, Clone)]
pub struct WizardData {
    // Telegram
    /// `bot` or `userbot`.
    pub mode: String,
    pub tg_token: String,
    pub userbot_source: UserbotAuthSource,
    pub tg_api_id: String,
    pub tg_api_hash: String,
    pub tg_phone: String,
    pub tg_code: String,
    pub tg_2fa: String,
    /// Login token returned by `/send-code` (used by `/verify-code`).
    pub tg_login_token: String,
    /// Session string returned by `/verify-code`.
    pub tg_session_string: String,
    pub tg_resolved_api_id: String,
    pub tg_resolved_api_hash: String,
    pub tg_needs_2fa: bool,
    // LLM
    pub llm_preset: String,
    pub llm_model: String,
    pub llm_api_key: String,
    pub llm_base_url: String,
    // Persona basics
    /// `RU` or `UA`.
    pub nationality: String,
    pub name_mode: NameMode,
    pub name: String,
    /// 14..=99, 18 by default.
    pub age: u8,
    pub tz: String,
    pub stage: String,
    pub communication: String,
    pub sleep_preset: String,
    pub privacy: String,
    pub persona_notes: String,
    pub slug: String,
}

/// The form as the wizard opens it.
pub open spec fn is_default_form(r: WizardData) -> bool {
    &&& r.mode@ == "bot"@
    &&& r.tg_token@.len() == 0
    &&& r.userbot_source == UserbotAuthSource::Owner
    &&& r.tg_api_id@.len() == 0
    &&& r.tg_api_hash@.len() == 0
    &&& r.tg_phone@.len() == 0
    &&& r.tg_code@.len() == 0
    &&& r.tg_2fa@.len() == 0
    &&& r.tg_login_token@.len() == 0
    &&& r.tg_session_string@.len() == 0
    &&& r.tg_resolved_api_id@.len() == 0
    &&& r.tg_resolved_api_hash@.len() == 0
    &&& !r.tg_needs_2fa
    &&& r.llm_preset@ == "openai"@
    &&& r.llm_model@.len() == 0
    &&& r.llm_api_key@.len() == 0
    &&& r.llm_base_url@.len() == 0
    &&& r.nationality@ == "RU"@
    &&& r.name_mode == NameMode::Random
    &&& r.name@.len() == 0
    &&& r.age == 18
    &&& r.tz@ == "Europe/Moscow"@
    &&& r.stage@ == "tg-given-cold"@
    &&& r.communication@ == "normal"@
    &&& r.sleep_preset@ == "standard"@
    &&& r.privacy@ == "owner-only"@
    &&& r.persona_notes@.len() == 0
    &&& r.slug@.len() == 0
}

impl Default for WizardData {
    fn default() -> (r: Self)
        ensures
            is_default_form(r),
    {
        WizardData {
            mode: owned("bot"),
            tg_token: String::new(),
            userbot_source: UserbotAuthSource::Owner,
            tg_api_id: String::new(),
            tg_api_hash: String::new(),
            tg_phone: String::new(),
            tg_code: String::new(),
            tg_2fa: String::new(),
            tg_login_token: String::new(),
            tg_session_string: String::new(),
            tg_resolved_api_id: String::new(),
            tg_resolved_api_hash: String::new(),
            tg_needs_2fa: false,
            llm_preset: owned("openai"),
            llm_model: String::new(),
            llm_api_key: String::new(),
            llm_base_url: String::new(),
            nationality: owned("RU"),
            name_mode: NameMode::Random,
            name: String::new(),
            age: 18,
            tz: owned("Europe/Moscow"),
            stage: owned("tg-given-cold"),
            communication: owned("normal"),
            sleep_preset: owned("standard"),
            privacy: owned("owner-only"),
            persona_notes: String::new(),
            slug: String::new(),
        }
    }
}

/// The Telegram page is complete: a bot token in bot mode; in userbot mode
/// a session string and a phone, plus api id and hash with own credentials.
pub open spec fn telegram_valid(d: WizardData) -> bool {
    if d.mode@ == "bot"@ {
        !blank(d.tg_token@)
    } else if d.mode@ == "userbot"@ {
        d.tg_session_string@.len() > 0 && match d.userbot_source {
            UserbotAuthSource::Owner => !blank(d.tg_phone@),
            UserbotAuthSource::Own => !blank(d.tg_api_id@) && !blank(d.tg_api_hash@) && !blank(
                d.tg_phone@,
            ),
        }
    } else {
        false
    }
}

/// A userbot's Telegram page is never complete without a session string,
/// whatever the credentials source; a complete userbot page also has a
/// phone, and with its own credentials an api id and hash. With a session,
/// a phone and those credentials it is complete.
pub proof fn lemma_userbot_needs_session(d: WizardData)
    requires
        d.mode@ == "userbot"@,
    ensures
        d.tg_session_string@.len() == 0 ==> !telegram_valid(d),
        telegram_valid(d) ==> d.tg_session_string@.len() > 0 && !blank(d.tg_phone@),
        telegram_valid(d) && d.userbot_source == UserbotAuthSource::Own ==> !blank(d.tg_api_id@)
            && !blank(d.tg_api_hash@),
        d.tg_session_string@.len() > 0 && !blank(d.tg_phone@) && (d.userbot_source
            == UserbotAuthSource::Owner || (!blank(d.tg_api_id@) && !blank(d.tg_api_hash@)))
            ==> telegram_valid(d),
{
    reveal_strlit("bot");
    reveal_strlit("userbot");
    assert("bot"@.len() != "userbot"@.len());
}

/// A bot's Telegram page is complete exactly when it has a token that is not
/// blank; a mode other than bot or userbot never completes the page.
pub proof fn lemma_bot_needs_token(d: WizardData)
    ensures
        d.mode@ == "bot"@ ==> (telegram_valid(d) <==> !blank(d.tg_token@)),
        d.mode@ != "bot"@ && d.mode@ != "userbot"@ ==> !telegram_valid(d),
{
}

/// The LLM page is complete: a known provider, and a key when it needs one.
pub open spec fn llm_valid(d: WizardData) -> bool {
    match preset_for(d.llm_preset@) {
        Some(p) => !(p.api_key_required && blank(d.llm_api_key@)),
        None => false,
    }
}

/// The persona page is complete: a name, an age of 14 to 99, a time zone.
pub open spec fn persona_valid(d: WizardData) -> bool {
    !blank(d.name@) && 14 <= d.age <= 99 && d.tz@.len() > 0
}

/// The LLM page needs a known provider, and a key only when that provider
/// asks for one: an unknown provider never completes it, a provider without
/// a required key completes it with any key, and one that requires a key
/// completes it exactly when the key is not blank.
pub proof fn lemma_llm_page_needs_known_provider(d: WizardData)
    ensures
        preset_for(d.llm_preset@) is None ==> !llm_valid(d),
        preset_for(d.llm_preset@) matches Some(p) && !p.api_key_required ==> llm_valid(d),
        preset_for(d.llm_preset@) matches Some(p) && p.api_key_required ==> (llm_valid(d)
            <==> !blank(d.llm_api_key@)),
{
}

/// The persona page needs a name that is not blank, an age from 14 to 99
/// and a time zone; with all three it is complete.
pub proof fn lemma_persona_page_bounds(d: WizardData)
    ensures
        d.age < 14 || d.age > 99 ==> !persona_valid(d),
        blank(d.name@) ==> !persona_valid(d),
        d.tz@.len() == 0 ==> !persona_valid(d),
        !blank(d.name@) && 14 <= d.age <= 99 && d.tz@.len() > 0 ==> persona_valid(d),
{
}

impl WizardData {
    /// A copy equal to `self`.
    pub fn duplicate(&self) -> (r: WizardData)
        ensures
            r == *self,
    {
        WizardData {
            mode: self.mode.clone(),
            tg_token: self.tg_token.clone(),
            userbot_source: self.userbot_source,
            tg_api_id: self.tg_api_id.clone(),
            tg_api_hash: self.tg_api_hash.clone(),
            tg_phone: self.tg_phone.clone(),
            tg_code: self.tg_code.clone(),
            tg_2fa: self.tg_2fa.clone(),
            tg_login_token: self.tg_login_token.clone(),
            tg_session_string: self.tg_session_string.clone(),
            tg_resolved_api_id: self.tg_resolved_api_id.clone(),
            tg_resolved_api_hash: self.tg_resolved_api_hash.clone(),
            tg_needs_2fa: self.tg_needs_2fa,
            llm_preset: self.llm_preset.clone(),
            llm_model: self.llm_model.clone(),
            llm_api_key: self.llm_api_key.clone(),
            llm_base_url: self.llm_base_url.clone(),
            nationality: self.nationality.clone(),
            name_mode: self.name_mode,
            name: self.name.clone(),
            age: self.age,
            tz: self.tz.clone(),
            stage: self.stage.clone(),
            communication: self.communication.clone(),
            sleep_preset: self.sleep_preset.clone(),
            privacy: self.privacy.clone(),
            persona_notes: self.persona_notes.clone(),
            slug: self.slug.clone(),
        }
    }

    /// Recomputes the slug from the name.
    pub fn refresh_slug(&mut self)
        ensures
            *final(self) == (WizardData { slug: final(self).slug, ..*old(self) }),
            final(self).slug@ == slug_of(old(self).name@),
    {
        self.slug = slugify(self.name.as_str());
    }

    /// Fills the model, base URL and (for providers with a default key) the
    /// API key from the selected provider, where the user left them empty.
    pub fn apply_llm_preset_defaults(&mut self)
        ensures
            *final(self) == (WizardData {
                llm_model: final(self).llm_model,
                llm_base_url: final(self).llm_base_url,
                llm_api_key: final(self).llm_api_key,
                ..*old(self)
            }),
            match preset_for(old(self).llm_preset@) {
                Some(p) => {
                    &&& final(self).llm_model@ == if old(self).llm_model@.len() == 0 {
                        p.default_model
                    } else {
                        old(self).llm_model@
                    }
                    &&& final(self).llm_base_url@ == if old(self).llm_base_url@.len() == 0
                        && p.base_url is Some {
                        p.base_url->0
                    } else {
                        old(self).llm_base_url@
                    }
                    &&& final(self).llm_api_key@ == if old(self).llm_api_key@.len() == 0
                        && p.default_api_key is Some {
                        p.default_api_key->0
                    } else {
                        old(self).llm_api_key@
                    }
                },
                None => *final(self) == *old(self),
            },
    {
        match find_llm_preset(self.llm_preset.as_str()) {
            Some(p) => {
                if self.llm_model.as_str().is_empty() {
                    self.llm_model = owned(p.default_model);
                }
                if self.llm_base_url.as_str().is_empty() {
                    match p.base_url {
                        Some(b) => {
                            self.llm_base_url = owned(b);
                        },
                        None => {},
                    }
                }
                match p.default_api_key {
                    Some(k) => {
                        if self.llm_api_key.as_str().is_empty() {
                            self.llm_api_key = owned(k);
                        }
                    },
                    None => {},
                }
            },
            None => {},
        }
    }

    /// The API protocol of the selected provider, `openai` when unknown.
    pub fn current_llm_proto(&self) -> (r: &str)
        ensures
            r@ == match preset_for(self.llm_preset@) {
                Some(p) => p.proto,
                None => "openai"@,
            },
    {
        match find_llm_preset(self.llm_preset.as_str()) {
            Some(p) => p.proto,
            None => "openai",
        }
    }

    /// Whether the selected provider needs an API key (unknown ones do).
    pub fn current_llm_requires_key(&self) -> (r: bool)
        ensures
            r == match preset_for(self.llm_preset@) {
                Some(p) => p.api_key_required,
                None => true,
            },
    {
        match find_llm_preset(self.llm_preset.as_str()) {
            Some(p) => p.api_key_required,
            None => true,
        }
    }

    /// Whether the Telegram page is complete.
    pub fn is_telegram_valid(&self) -> (r: bool)
        ensures
            r == telegram_valid(*self),
    {
        if str_eq(self.mode.as_str(), "bot") {
            !is_blank(self.tg_token.as_str())
        } else if str_eq(self.mode.as_str(), "userbot") {
            if self.tg_session_string.as_str().is_empty() {
                return false;
            }
            match self.userbot_source {
                UserbotAuthSource::Owner => !is_blank(self.tg_phone.as_str()),
                UserbotAuthSource::Own => {
                    !is_blank(self.tg_api_id.as_str()) && !is_blank(self.tg_api_hash.as_str())
                        && !is_blank(self.tg_phone.as_str())
                },
            }
        } else {
            false
        }
    }

    /// Whether the LLM page is complete.
    pub fn is_llm_valid(&self) -> (r: bool)
        ensures
            r == llm_valid(*self),
    {
        let p = match find_llm_preset(self.llm_preset.as_str()) {
            Some(p) => p,
            None => return false,
        };
        if p.api_key_required && is_blank(self.llm_api_key.as_str()) {
            return false;
        }
        true
    }

    /// Whether the persona page is complete.
    pub fn is_persona_valid(&self) -> (r: bool)
        ensures
            r == persona_valid(*self),
    {
        !is_blank(self.name.as_str()) && 14 <= self.age && self.age <= 99 && !self.tz.as_str().is_empty()
    }
}

} // verus!
