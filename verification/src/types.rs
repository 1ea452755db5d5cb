//! Mirror types for the JSON-events protocol of the Node.js runtime in
//! `--json-events` mode, and the rendering of events into log lines.
//!
//! The discriminant of an event stays a plain string so that lines of newer
//! runtimes with unknown event kinds are kept rather than dropped.

use vstd::prelude::*;

use crate::text::{owned, push_two_digits, str_eq, two_digits};

verus! {

/// `serde_json::Value`, carried through untouched (the chat id of an event).
#[verifier::external_type_specification]
#[verifier::external_body]
pub struct ExJsonValue(serde_json::Value);

/// 5-vector relationship score.
#[derive(Debug, Clone, Copy, PartialEq, Eq, Structural)]
pub struct RelationshipScore {
    pub interest: i32,
    pub trust: i32,
    pub attraction: i32,
    pub annoyance: i32,
    pub cringe: i32,
}

impl RelationshipScore {
    /// The all-zero score.
    pub open spec fn zero() -> RelationshipScore {
        RelationshipScore { interest: 0, trust: 0, attraction: 0, annoyance: 0, cringe: 0 }
    }
}

impl Default for RelationshipScore {
    fn default() -> (r: Self)
        ensures
            r == RelationshipScore::zero(),
    {
        RelationshipScore { interest: 0, trust: 0, attraction: 0, annoyance: 0, cringe: 0 }
    }
}

/// A relationship stage: its id and its human label.
#[derive(Debug, Clone)]
pub struct StageRef {
    pub id: String,
    pub label: String,
}

impl StageRef {
    /// A copy equal to `self`.
    pub fn duplicate(&self) -> (r: StageRef)
        ensures
            r == *self,
    {
        StageRef { id: self.id.clone(), label: self.label.clone() }
    }
}

/// The profile the runtime is running.
#[derive(Debug, Clone)]
pub struct ProfileSummary {
    pub slug: String,
    pub name: String,
    pub age: u32,
    pub mode: String,
    pub nationality: String,
    pub tz: String,
    pub stage: StageRef,
}

impl ProfileSummary {
    /// A copy equal to `self`.
    pub fn duplicate(&self) -> (r: ProfileSummary)
        ensures
            r == *self,
    {
        ProfileSummary {
            slug: self.slug.clone(),
            name: self.name.clone(),
            age: self.age,
            mode: self.mode.clone(),
            nationality: self.nationality.clone(),
            tz: self.tz.clone(),
            stage: self.stage.duplicate(),
        }
    }
}

/// A copy of an optional stage, equal to it.
pub fn duplicate_stage(s: &Option<StageRef>) -> (r: Option<StageRef>)
    ensures
        r == *s,
{
    match s {
        Some(x) => Some(x.duplicate()),
        None => None,
    }
}

/// A copy of an optional profile, equal to it.
pub fn duplicate_profile(p: &Option<ProfileSummary>) -> (r: Option<ProfileSummary>)
    ensures
        r == *p,
{
    match p {
        Some(x) => Some(x.duplicate()),
        None => None,
    }
}

/// One line of the runtime's NDJSON stdout stream.
#[derive(Debug, Clone)]
pub struct RuntimeEvent {
    /// The event's `type`.
    pub kind: String,
    pub text: Option<String>,
    pub chat_id: Option<serde_json::Value>,
    pub reason: Option<String>,
    pub score: Option<RelationshipScore>,
    pub stage: Option<StageRef>,
    pub profile: Option<ProfileSummary>,
    pub paused: Option<bool>,
    pub ok: Option<bool>,
    /// Producer timestamp in ms since epoch.
    pub t: Option<u64>,
}

/// The characters of an optional string, empty when absent
/// (`unwrap_or_default`).
pub open spec fn or_empty(s: Option<String>) -> Seq<char> {
    match s {
        Some(x) => x@,
        None => Seq::empty(),
    }
}

/// Event kinds that are shown in the log.
pub open spec fn is_log_kind(kind: Seq<char>) -> bool {
    ||| kind == "incoming"@
    ||| kind == "outgoing"@
    ||| kind == "ignored"@
    ||| kind == "error"@
    ||| kind == "info"@
    ||| kind == "response"@
    ||| kind == "ready"@
    ||| kind == "stopped"@
}

/// The log rendering of an event of kind `kind`.
pub open spec fn pretty_log_text(
    kind: Seq<char>,
    text: Seq<char>,
    reason: Seq<char>,
    ok: Option<bool>,
) -> Seq<char> {
    if kind == "incoming"@ {
        "← "@ + text
    } else if kind == "outgoing"@ {
        "→ "@ + text
    } else if kind == "ignored"@ {
        "· ignore ("@ + reason + "): "@ + text
    } else if kind == "error"@ {
        "! "@ + text
    } else if kind == "response"@ {
        if ok == Some(false) {
            "? err: "@ + text
        } else {
            "? "@ + text
        }
    } else if kind == "ready"@ {
        "i ready"@
    } else if kind == "stopped"@ {
        "i stopped"@
    } else {
        "i "@ + text
    }
}

/// `HH:MM:SS` (UTC wall clock) of a millisecond timestamp, `00:00:00` when absent.
pub open spec fn clock_text(t: Option<u64>) -> Seq<char> {
    let secs: int = match t {
        Some(ms) => ms as int / 1000,
        None => 0,
    };
    two_digits((secs / 3600) % 24) + seq![':'] + two_digits((secs / 60) % 60) + seq![':']
        + two_digits(secs % 60)
}

/// Appends `s` to `out`.
fn push_str(out: &mut String, s: &str)
    ensures
        final(out)@ == old(out)@ + s@,
{
    out.append(s);
}

impl RuntimeEvent {
    pub open spec fn log_text(&self) -> Seq<char> {
        pretty_log_text(self.kind@, or_empty(self.text), or_empty(self.reason), self.ok)
    }

    /// Whether this event is shown in the log.
    pub fn is_log_line(&self) -> (r: bool)
        ensures
            r == is_log_kind(self.kind@),
    {
        let k = self.kind.as_str();
        str_eq(k, "incoming") || str_eq(k, "outgoing") || str_eq(k, "ignored") || str_eq(k, "error")
            || str_eq(k, "info") || str_eq(k, "response") || str_eq(k, "ready") || str_eq(
            k,
            "stopped",
        )
    }

    /// The log rendering of this event.
    pub fn pretty_log(&self) -> (r: String)
        ensures
            r@ == self.log_text(),
    {
        let txt = match &self.text {
            Some(t) => owned(t.as_str()),
            None => String::new(),
        };
        let k = self.kind.as_str();
        let mut out = String::new();
        if str_eq(k, "incoming") {
            push_str(&mut out, "← ");
            push_str(&mut out, txt.as_str());
        } else if str_eq(k, "outgoing") {
            push_str(&mut out, "→ ");
            push_str(&mut out, txt.as_str());
        } else if str_eq(k, "ignored") {
            push_str(&mut out, "· ignore (");
            match &self.reason {
                Some(r) => push_str(&mut out, r.as_str()),
                None => {},
            }
            push_str(&mut out, "): ");
            push_str(&mut out, txt.as_str());
        } else if str_eq(k, "error") {
            push_str(&mut out, "! ");
            push_str(&mut out, txt.as_str());
        } else if str_eq(k, "response") {
            match self.ok {
                Some(false) => push_str(&mut out, "? err: "),
                _ => push_str(&mut out, "? "),
            }
            push_str(&mut out, txt.as_str());
        } else if str_eq(k, "ready") {
            push_str(&mut out, "i ready");
        } else if str_eq(k, "stopped") {
            push_str(&mut out, "i stopped");
        } else {
            push_str(&mut out, "i ");
            push_str(&mut out, txt.as_str());
        }
        assert(out@ =~= self.log_text());
        out
    }

    /// `HH:MM:SS` of the event's timestamp.
    pub fn ts_string(&self) -> (r: String)
        ensures
            r@ == clock_text(self.t),
    {
        let secs: u64 = match self.t {
            Some(ms) => ms / 1000,
            None => 0,
        };
        let h = (secs / 3600) % 24;
        let m = (secs / 60) % 60;
        let s = secs % 60;
        let mut out = String::new();
        push_two_digits(&mut out, h);
        crate::text::push_char(&mut out, ':');
        push_two_digits(&mut out, m);
        crate::text::push_char(&mut out, ':');
        push_two_digits(&mut out, s);
        assert(out@ =~= clock_text(self.t));
        out
    }
}

/// The runtime's answer to `:snapshot`.
#[derive(Debug, Clone)]
pub struct Snapshot {
    pub paused: bool,
    pub profile: Option<ProfileSummary>,
    pub stage: Option<StageRef>,
    pub score: RelationshipScore,
}

impl Default for Snapshot {
    fn default() -> (r: Self)
        ensures
            !r.paused,
            r.profile is None,
            r.stage is None,
            r.score == RelationshipScore::zero(),
    {
        Snapshot { paused: false, profile: None, stage: None, score: RelationshipScore::default() }
    }
}

} // verus!
