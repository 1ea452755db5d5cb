//! How the Node.js runtime is launched and talked to in `--json-events`
//! mode: the command line, the `:command` lines written to its stdin, and the
//! events made of the lines read from its stdout.
//!
//! Spawning the child and moving bytes through its pipes is left to the
//! application; this module decides what is spawned, what is written and
//! what each read line means.

use vstd::prelude::*;

use crate::text::{blank, is_blank, owned, push_char, starts_with_char, trim_str, trimmed};
use crate::types::RuntimeEvent;

verus! {

/// How the runtime is launched.
#[derive(Debug, Clone)]
pub enum BotLauncher {
    /// `npx @thesashadev/girl-agent`: the globally installed / npx-cached package.
    Npx,
    /// `node <cli_path>`: a checked-out clone.
    Node { cli_path: String },
}

/// Everything needed to spawn the runtime.
#[derive(Debug, Clone)]
pub struct BotSpawnConfig {
    pub launcher: BotLauncher,
    /// Slug of the profile to launch with `--profile=...`.
    pub profile_slug: String,
    /// Working directory of the child, if any.
    pub cwd: Option<String>,
    /// Value for `GIRL_AGENT_DATA`, if any.
    pub data_root: Option<String>,
    /// Extra CLI flags appended verbatim.
    pub extra_args: Vec<String>,
}

/// A program and its arguments.
#[derive(Debug, Clone)]
pub struct CommandLine {
    pub program: String,
    pub args: Vec<String>,
}

/// The npm package the runtime ships in.
pub open spec fn package_name() -> Seq<char> {
    "@thesashadev/girl-agent"@
}

/// The executable launched for `launcher`.
pub open spec fn program_text(launcher: BotLauncher, windows: bool) -> Seq<char> {
    match launcher {
        BotLauncher::Npx => if windows {
            "npx.cmd"@
        } else {
            "npx"@
        },
        BotLauncher::Node { .. } => if windows {
            "node.exe"@
        } else {
            "node"@
        },
    }
}

/// The characters of each string of a list.
pub open spec fn texts(v: Seq<String>) -> Seq<Seq<char>> {
    v.map_values(|a: String| a@)
}

/// The arguments the runtime is launched with.
pub open spec fn args_text(spec: BotSpawnConfig) -> Seq<Seq<char>> {
    let head = match spec.launcher {
        BotLauncher::Npx => seq!["--yes"@, package_name()],
        BotLauncher::Node { cli_path } => seq![cli_path@],
    };
    head + seq!["--profile="@ + spec.profile_slug@, "--json-events"@] + texts(spec.extra_args@)
}

/// The command line that launches the runtime for `spec` (`windows` selects
/// the `.cmd` / `.exe` executables).
pub fn build_command(spec: &BotSpawnConfig, windows: bool) -> (r: CommandLine)
    ensures
        r.program@ == program_text(spec.launcher, windows),
        texts(r.args@) == args_text(*spec),
{
    let mut args: Vec<String> = Vec::new();
    let program = match &spec.launcher {
        BotLauncher::Npx => {
            args.push(owned("--yes"));
            args.push(owned("@thesashadev/girl-agent"));
            if windows {
                owned("npx.cmd")
            } else {
                owned("npx")
            }
        },
        BotLauncher::Node { cli_path } => {
            args.push(cli_path.clone());
            if windows {
                owned("node.exe")
            } else {
                owned("node")
            }
        },
    };
    let mut profile = owned("--profile=");
    profile.append(spec.profile_slug.as_str());
    args.push(profile);
    args.push(owned("--json-events"));
    let ghost head = texts(args@);
    let mut i: usize = 0;
    while i < spec.extra_args.len()
        invariant
            i <= spec.extra_args@.len(),
            texts(args@) == head + texts(spec.extra_args@.subrange(0, i as int)),
        decreases spec.extra_args@.len() - i,
    {
        let ghost before = args@;
        args.push(spec.extra_args[i].clone());
        proof {
            let prev = spec.extra_args@.subrange(0, i as int);
            let next = spec.extra_args@.subrange(0, i + 1);
            assert(next =~= prev.push(spec.extra_args@[i as int]));
            assert(texts(next) =~= texts(prev).push(spec.extra_args@[i as int]@));
            assert(texts(args@) =~= texts(before).push(spec.extra_args@[i as int]@));
            assert(texts(args@) =~= head + texts(next));
        }
        i = i + 1;
    }
    assert(spec.extra_args@.subrange(0, i as int) =~= spec.extra_args@);
    assert(texts(args@) =~= args_text(*spec));
    CommandLine { program, args }
}

/// The stdin line for a user command: trimmed, prefixed with `:` unless it
/// already starts with one, and newline-terminated; nothing for a blank line.
pub open spec fn command_line_text(line: Seq<char>) -> Option<Seq<char>> {
    let t = trimmed(line);
    if t.len() == 0 {
        None
    } else if starts_with_char(t, ':') {
        Some(t.push('\n'))
    } else {
        Some((seq![':'] + t).push('\n'))
    }
}

/// Every command reaches the runtime as exactly one `:`-prefixed line: the
/// payload starts with `:`, ends with its only newline, and carries the
/// trimmed command.
pub proof fn lemma_command_is_one_line(line: Seq<char>)
    requires
        !trimmed(line).contains('\n'),
    ensures
        command_line_text(line) matches Some(p) ==> {
            &&& p[0] == ':'
            &&& p.last() == '\n'
            &&& forall|i: int| 0 <= i < p.len() - 1 ==> p[i] != '\n'
        },
{
    let t = trimmed(line);
    if t.len() > 0 {
        if starts_with_char(t, ':') {
            assert forall|i: int| 0 <= i < t.len() implies t.push('\n')[i] != '\n' by {
                assert(t.push('\n')[i] == t[i]);
            }
        } else {
            let q = seq![':'] + t;
            assert forall|i: int| 1 <= i < q.len() implies q.push('\n')[i] != '\n' by {
                assert(q.push('\n')[i] == t[i - 1]);
            }
        }
    }
}

/// What `send_command` writes to the runtime's stdin for `line`.
pub fn command_payload(line: &str) -> (r: Option<String>)
    ensures
        r matches Some(p) ==> command_line_text(line@) == Some(p@),
        r is None ==> command_line_text(line@) is None,
{
    let t = trim_str(line);
    let n = t.unicode_len();
    if n == 0 {
        return None;
    }
    let mut payload = String::new();
    if t.get_char(0) != ':' {
        push_char(&mut payload, ':');
    }
    payload.append(t);
    push_char(&mut payload, '\n');
    assert(payload@ =~= command_line_text(line@)->0);
    Some(payload)
}

/// An event of kind `kind` whose only other field is `text`.
pub open spec fn is_text_event(ev: RuntimeEvent, kind: Seq<char>, text: Seq<char>) -> bool {
    &&& ev.kind@ == kind
    &&& ev.text matches Some(t) && t@ == text
    &&& ev.chat_id is None
    &&& ev.reason is None
    &&& ev.score is None
    &&& ev.stage is None
    &&& ev.profile is None
    &&& ev.paused is None
    &&& ev.ok is None
    &&& ev.t is None
}

fn text_event(kind: &str, text: String) -> (r: RuntimeEvent)
    ensures
        is_text_event(r, kind@, text@),
{
    RuntimeEvent {
        kind: owned(kind),
        text: Some(text),
        chat_id: None,
        reason: None,
        score: None,
        stage: None,
        profile: None,
        paused: None,
        ok: None,
        t: None,
    }
}

/// The event for one line of the runtime's stdout, given what JSON parsing
/// of the line gave (`parsed`): blank lines are skipped, parsed lines are
/// passed on, and any other line becomes an `info` event carrying it.
pub fn stdout_line_event(line: String, parsed: Option<RuntimeEvent>) -> (r: Option<RuntimeEvent>)
    ensures
        blank(line@) ==> r is None,
        !blank(line@) && parsed is Some ==> r == parsed,
        !blank(line@) && parsed is None ==> (r matches Some(ev) && is_text_event(
            ev,
            "info"@,
            line@,
        )),
{
    if is_blank(line.as_str()) {
        return None;
    }
    match parsed {
        Some(ev) => Some(ev),
        None => Some(text_event("info", line)),
    }
}

/// The event sent once the runtime's stdout has closed.
pub fn stdout_closed_event() -> (r: RuntimeEvent)
    ensures
        is_text_event(r, "stopped"@, "bot stdout closed"@),
{
    text_event("stopped", owned("bot stdout closed"))
}

} // verus!
