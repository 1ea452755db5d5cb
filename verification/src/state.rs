//! The dashboard state that both the native window and the local web UI
//! render: latest profile, stage, score, pause / run flags and a bounded log
//! of the newest event lines.
//!
//! The state is changed only by [`AppState::ingest`] (one runtime event) and
//! [`AppState::set_running`]; the log never holds more than
//! [`LOG_RETAIN`] lines.

use std::collections::VecDeque;

use vstd::prelude::*;

use crate::types::{
    clock_text, duplicate_profile, duplicate_stage, is_log_kind, ProfileSummary,
    RelationshipScore, RuntimeEvent, StageRef,
};

verus! {

/// How many log lines the dashboard keeps.
pub const LOG_RETAIN: usize = 500;

/// One rendered log line.
#[derive(Clone, Debug)]
pub struct LogLine {
    pub kind: String,
    pub time: String,
    pub text: String,
}

/// The characters of a log line's three fields.
pub struct LogLineView {
    pub kind: Seq<char>,
    pub time: Seq<char>,
    pub text: Seq<char>,
}

impl View for LogLine {
    type V = LogLineView;

    open spec fn view(&self) -> LogLineView {
        LogLineView { kind: self.kind@, time: self.time@, text: self.text@ }
    }
}

impl LogLine {
    /// A copy equal to `self`.
    pub fn duplicate(&self) -> (r: LogLine)
        ensures
            r == *self,
    {
        LogLine { kind: self.kind.clone(), time: self.time.clone(), text: self.text.clone() }
    }
}

/// The log line an event renders to.
pub open spec fn log_line_of(ev: RuntimeEvent) -> LogLineView {
    LogLineView { kind: ev.kind@, time: clock_text(ev.t), text: ev.log_text() }
}

/// The newest `LOG_RETAIN` lines of `s`.
pub open spec fn retain_newest(s: Seq<LogLineView>) -> Seq<LogLineView> {
    if s.len() > LOG_RETAIN {
        s.skip(s.len() - LOG_RETAIN)
    } else {
        s
    }
}

/// What the UI and the web server render.
#[derive(Clone, Debug)]
pub struct DashboardState {
    pub profile: Option<ProfileSummary>,
    pub stage: Option<StageRef>,
    pub score: RelationshipScore,
    pub paused: bool,
    pub running: bool,
    pub logs: Vec<LogLine>,
}

impl Default for DashboardState {
    fn default() -> (r: Self)
        ensures
            r.profile is None,
            r.stage is None,
            r.score == RelationshipScore::zero(),
            !r.paused,
            !r.running,
            r.logs@.len() == 0,
    {
        DashboardState {
            profile: None,
            stage: None,
            score: RelationshipScore::default(),
            paused: false,
            running: false,
            logs: Vec::new(),
        }
    }
}

/// The abstract dashboard state.
pub struct AppStateView {
    pub profile: Option<ProfileSummary>,
    pub stage: Option<StageRef>,
    pub score: RelationshipScore,
    pub paused: bool,
    pub running: bool,
    pub logs: Seq<LogLineView>,
}

/// The state after one runtime event: present fields overwrite, `ready` /
/// `stopped` set the run flag, and log-kind events append their rendering,
/// dropping the oldest lines beyond `LOG_RETAIN`.
pub open spec fn ingested(v: AppStateView, ev: RuntimeEvent) -> AppStateView {
    AppStateView {
        profile: if ev.profile is Some {
            ev.profile
        } else {
            v.profile
        },
        stage: if ev.stage is Some {
            ev.stage
        } else {
            v.stage
        },
        score: match ev.score {
            Some(s) => s,
            None => v.score,
        },
        paused: match ev.paused {
            Some(p) => p,
            None => v.paused,
        },
        running: if ev.kind@ == "ready"@ {
            true
        } else if ev.kind@ == "stopped"@ {
            false
        } else {
            v.running
        },
        logs: if is_log_kind(ev.kind@) {
            retain_newest(v.logs.push(log_line_of(ev)))
        } else {
            v.logs
        },
    }
}

/// The state a fresh dashboard starts in.
pub open spec fn initial_view() -> AppStateView {
    AppStateView {
        profile: None,
        stage: None,
        score: RelationshipScore::zero(),
        paused: false,
        running: false,
        logs: Seq::empty(),
    }
}

/// The state after a stream of events, applied in order.
pub open spec fn ingested_all(v: AppStateView, evs: Seq<RuntimeEvent>) -> AppStateView
    decreases evs.len(),
{
    if evs.len() == 0 {
        v
    } else {
        ingested(ingested_all(v, evs.drop_last()), evs.last())
    }
}

/// The rendered lines of the log-kind events of a stream, in order.
pub open spec fn log_lines_of(evs: Seq<RuntimeEvent>) -> Seq<LogLineView>
    decreases evs.len(),
{
    if evs.len() == 0 {
        Seq::empty()
    } else if is_log_kind(evs.last().kind@) {
        log_lines_of(evs.drop_last()).push(log_line_of(evs.last()))
    } else {
        log_lines_of(evs.drop_last())
    }
}

proof fn lemma_retain_push(s: Seq<LogLineView>, x: LogLineView)
    ensures
        retain_newest(retain_newest(s).push(x)) == retain_newest(s.push(x)),
{
    if s.len() > LOG_RETAIN {
        assert(retain_newest(retain_newest(s).push(x)) =~= retain_newest(s.push(x)));
    }
}

/// The log keeps the newest lines: starting from a fresh dashboard, after any
/// stream of events the log holds exactly the last `LOG_RETAIN` (or fewer)
/// renderings of the stream's log-kind events, oldest first.
pub proof fn lemma_log_keeps_newest(evs: Seq<RuntimeEvent>)
    ensures
        ingested_all(initial_view(), evs).logs == retain_newest(log_lines_of(evs)),
    decreases evs.len(),
{
    if evs.len() > 0 {
        lemma_log_keeps_newest(evs.drop_last());
        if is_log_kind(evs.last().kind@) {
            lemma_retain_push(log_lines_of(evs.drop_last()), log_line_of(evs.last()));
        }
    } else {
        assert(retain_newest(Seq::<LogLineView>::empty()) =~= Seq::<LogLineView>::empty());
    }
}

/// The run flag follows only `ready` and `stopped`: `ready` sets it,
/// `stopped` clears it, and every other event (an error, a message, a score
/// update) leaves it as it was.
pub proof fn lemma_run_flag_follows_ready_and_stopped(v: AppStateView, ev: RuntimeEvent)
    ensures
        ev.kind@ == "ready"@ ==> ingested(v, ev).running,
        ev.kind@ == "stopped"@ ==> !ingested(v, ev).running,
        ev.kind@ != "ready"@ && ev.kind@ != "stopped"@ ==> ingested(v, ev).running == v.running,
{
    reveal_strlit("ready");
    reveal_strlit("stopped");
    assert("ready"@[0] != "stopped"@[0]);
}

/// Present fields overwrite and absent ones keep their value: an event that
/// carries a profile, stage, score or pause flag leaves exactly that value in
/// the state, and one that carries none leaves the old one.
pub proof fn lemma_present_fields_overwrite(v: AppStateView, ev: RuntimeEvent)
    ensures
        ev.profile is Some ==> ingested(v, ev).profile == ev.profile,
        ev.profile is None ==> ingested(v, ev).profile == v.profile,
        ev.stage is Some ==> ingested(v, ev).stage == ev.stage,
        ev.stage is None ==> ingested(v, ev).stage == v.stage,
        ev.score matches Some(s) ==> ingested(v, ev).score == s,
        ev.score is None ==> ingested(v, ev).score == v.score,
        ev.paused matches Some(p) ==> ingested(v, ev).paused == p,
        ev.paused is None ==> ingested(v, ev).paused == v.paused,
{
}

/// A log-kind event adds its rendering as the newest line, keeping at most
/// `LOG_RETAIN` lines and dropping only the oldest; any other event leaves
/// the log untouched.
pub proof fn lemma_log_event_appends(v: AppStateView, ev: RuntimeEvent)
    requires
        v.logs.len() <= LOG_RETAIN,
    ensures
        !is_log_kind(ev.kind@) ==> ingested(v, ev).logs == v.logs,
        is_log_kind(ev.kind@) ==> {
            let after = ingested(v, ev).logs;
            &&& after.len() > 0
            &&& after.last() == log_line_of(ev)
            &&& after.len() == if v.logs.len() < LOG_RETAIN {
                v.logs.len() + 1int
            } else {
                LOG_RETAIN as int
            }
            &&& forall|i: int|
                0 <= i < after.len() - 1 ==> #[trigger] after[i] == v.logs[i + v.logs.len() + 1
                    - after.len()]
        },
{
}

/// Latest dashboard state fed by the runtime's events.
pub struct AppState {
    profile: Option<ProfileSummary>,
    stage: Option<StageRef>,
    score: RelationshipScore,
    paused: bool,
    running: bool,
    logs: VecDeque<LogLine>,
}

impl View for AppState {
    type V = AppStateView;

    closed spec fn view(&self) -> AppStateView {
        AppStateView {
            profile: self.profile,
            stage: self.stage,
            score: self.score,
            paused: self.paused,
            running: self.running,
            logs: self.logs@.map_values(|l: LogLine| l@),
        }
    }
}

impl AppState {
    #[verifier::type_invariant]
    closed spec fn bounded(&self) -> bool {
        self.logs@.len() <= LOG_RETAIN
    }

    /// A fresh, empty dashboard state.
    pub fn new() -> (r: AppState)
        ensures
            r@ == initial_view(),
    {
        let r = AppState {
            profile: None,
            stage: None,
            score: RelationshipScore::default(),
            paused: false,
            running: false,
            logs: VecDeque::new(),
        };
        assert(r@.logs =~= Seq::<LogLineView>::empty());
        r
    }

    /// Applies one runtime event.
    pub fn ingest(&mut self, ev: RuntimeEvent)
        ensures
            final(self)@ == ingested(old(self)@, ev),
            final(self)@.logs.len() <= LOG_RETAIN,
    {
        proof {
            use_type_invariant(&*self);
        }
        let ghost ev0 = ev;
        let line = if ev.is_log_line() {
            Some(LogLine { kind: ev.kind.clone(), time: ev.ts_string(), text: ev.pretty_log() })
        } else {
            None
        };
        let RuntimeEvent { kind, score, stage, profile, paused, .. } = ev;
        if let Some(p) = profile {
            self.profile = Some(p);
        }
        if let Some(s) = stage {
            self.stage = Some(s);
        }
        if let Some(s) = score {
            self.score = s;
        }
        if let Some(p) = paused {
            self.paused = p;
        }
        if crate::text::str_eq(kind.as_str(), "ready") {
            self.running = true;
        } else if crate::text::str_eq(kind.as_str(), "stopped") {
            self.running = false;
        }
        if let Some(l) = line {
            let ghost before = self.logs@;
            let mut logs: VecDeque<LogLine> = VecDeque::new();
            std::mem::swap(&mut logs, &mut self.logs);
            logs.push_back(l);
            if logs.len() > LOG_RETAIN {
                let _ = logs.pop_front();
            }
            proof {
                let pushed = before.push(l);
                assert(pushed.map_values(|x: LogLine| x@) =~= before.map_values(|x: LogLine| x@).push(
                    log_line_of(ev0),
                ));
                if pushed.len() > LOG_RETAIN {
                    assert(logs@ =~= pushed.skip(1));
                    assert(logs@.map_values(|x: LogLine| x@) =~= pushed.map_values(
                        |x: LogLine| x@,
                    ).skip(1));
                }
            }
            self.logs = logs;
        }
        assert(self@.logs =~= ingested(old(self)@, ev0).logs);
    }

    /// Sets the run flag and nothing else.
    pub fn set_running(&mut self, running: bool)
        ensures
            final(self)@ == (AppStateView { running, ..old(self)@ }),
    {
        proof {
            use_type_invariant(&*self);
        }
        self.running = running;
    }

    /// Everything the UI renders, as plain values.
    pub fn snapshot(&self) -> (r: DashboardState)
        ensures
            r.profile == self@.profile,
            r.stage == self@.stage,
            r.score == self@.score,
            r.paused == self@.paused,
            r.running == self@.running,
            r.logs@.map_values(|l: LogLine| l@) == self@.logs,
            r.logs@.len() <= LOG_RETAIN,
    {
        proof {
            use_type_invariant(self);
        }
        let mut logs: Vec<LogLine> = Vec::new();
        let mut i: usize = 0;
        while i < self.logs.len()
            invariant
                i <= self.logs@.len(),
                logs@ == self.logs@.subrange(0, i as int),
            decreases self.logs@.len() - i,
        {
            logs.push(self.logs[i].duplicate());
            i = i + 1;
        }
        assert(logs@ =~= self.logs@);
        DashboardState {
            profile: duplicate_profile(&self.profile),
            stage: duplicate_stage(&self.stage),
            score: self.score,
            paused: self.paused,
            running: self.running,
            logs,
        }
    }
}

} // verus!
