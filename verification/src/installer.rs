//! The installer wizard's flow: its pages and their order, what each
//! message does to the wizard, and which actions the application must then
//! perform (run the installation, launch the desktop app, quit, open a link).
//!
//! Drawing the pages and performing the actions is left to the application.

use vstd::prelude::*;

use crate::preflight::PreflightReport;
use crate::presets::{slug_of, Choice, ChoiceView};
use crate::text::owned;
use crate::wizard::{is_default_form, WizardData};

verus! {

/// The wizard's pages, in order.
#[derive(Debug, Clone, Copy, PartialEq, Eq, Structural)]
pub enum Step {
    Welcome,
    Preflight,
    Telegram,
    Llm,
    Persona,
    Summary,
    Installing,
    Done,
}

/// The page after `s`.
pub open spec fn next_spec(s: Step) -> Step {
    match s {
        Step::Welcome => Step::Preflight,
        Step::Preflight => Step::Telegram,
        Step::Telegram => Step::Llm,
        Step::Llm => Step::Persona,
        Step::Persona => Step::Summary,
        Step::Summary => Step::Installing,
        Step::Installing => Step::Done,
        Step::Done => Step::Done,
    }
}

/// The page before `s`; the install pages go back to the summary.
pub open spec fn prev_spec(s: Step) -> Step {
    match s {
        Step::Welcome => Step::Welcome,
        Step::Preflight => Step::Welcome,
        Step::Telegram => Step::Preflight,
        Step::Llm => Step::Telegram,
        Step::Persona => Step::Llm,
        Step::Summary => Step::Persona,
        Step::Installing | Step::Done => Step::Summary,
    }
}

/// The position of `s` in the progress dots (the install pages share the
/// summary's dot).
pub open spec fn index_spec(s: Step) -> u8 {
    match s {
        Step::Welcome => 0,
        Step::Preflight => 1,
        Step::Telegram => 2,
        Step::Llm => 3,
        Step::Persona => 4,
        Step::Summary | Step::Installing | Step::Done => 5,
    }
}

/// The page after `s`.
pub fn next_step(s: Step) -> (r: Step)
    ensures
        r == next_spec(s),
{
    match s {
        Step::Welcome => Step::Preflight,
        Step::Preflight => Step::Telegram,
        Step::Telegram => Step::Llm,
        Step::Llm => Step::Persona,
        Step::Persona => Step::Summary,
        Step::Summary => Step::Installing,
        Step::Installing => Step::Done,
        Step::Done => Step::Done,
    }
}

/// The page before `s`.
pub fn prev_step(s: Step) -> (r: Step)
    ensures
        r == prev_spec(s),
{
    match s {
        Step::Welcome => Step::Welcome,
        Step::Preflight => Step::Welcome,
        Step::Telegram => Step::Preflight,
        Step::Llm => Step::Telegram,
        Step::Persona => Step::Llm,
        Step::Summary => Step::Persona,
        Step::Installing | Step::Done => Step::Summary,
    }
}

/// The progress-dot position of `s`.
pub fn step_index(s: Step) -> (r: u8)
    ensures
        r == index_spec(s),
{
    match s {
        Step::Welcome => 0,
        Step::Preflight => 1,
        Step::Telegram => 2,
        Step::Llm => 3,
        Step::Persona => 4,
        Step::Summary | Step::Installing | Step::Done => 5,
    }
}

/// Whether the progress dot of `slot` is lit while on `current`.
pub fn step_reached(current: Step, slot: Step) -> (r: bool)
    ensures
        r == (index_spec(current) >= index_spec(slot)),
{
    step_index(current) >= step_index(slot)
}

/// The buttons under a wizard page.
#[derive(Debug, Clone, Copy, PartialEq, Eq, Structural)]
pub enum NavRow {
    /// Only "начать" (next), on the welcome page.
    Begin,
    /// Back, and a link to install Node.js 20+ in place of next.
    InstallNode,
    /// Back, and "установить" (start the installation).
    Install,
    /// No buttons while installing.
    Waiting,
    /// "выйти" (quit) and "запустить и выйти" (launch and quit).
    Finish,
    /// Back and "дальше" (next).
    BackNext,
}

/// The buttons shown on `step`, given whether Node.js passed pre-flight.
pub open spec fn nav_row_for(step: Step, node_ok: bool) -> NavRow {
    match step {
        Step::Welcome => NavRow::Begin,
        Step::Preflight => if node_ok {
            NavRow::BackNext
        } else {
            NavRow::InstallNode
        },
        Step::Summary => NavRow::Install,
        Step::Installing => NavRow::Waiting,
        Step::Done => NavRow::Finish,
        _ => NavRow::BackNext,
    }
}

/// The buttons under the current page.
pub fn nav_row(step: Step, preflight: &PreflightReport) -> (r: NavRow)
    ensures
        r == nav_row_for(step, preflight.node_ok),
{
    match step {
        Step::Welcome => NavRow::Begin,
        Step::Preflight => if preflight.node_ok {
            NavRow::BackNext
        } else {
            NavRow::InstallNode
        },
        Step::Summary => NavRow::Install,
        Step::Installing => NavRow::Waiting,
        Step::Done => NavRow::Finish,
        _ => NavRow::BackNext,
    }
}

/// Going back undoes going forward, on every page up to the summary.
pub proof fn lemma_back_undoes_next(s: Step)
    requires
        s != Step::Installing,
        s != Step::Done,
    ensures
        prev_spec(next_spec(s)) == s,
{
}

/// Going forward never moves the progress back, and moves it on every page
/// before the summary.
pub proof fn lemma_next_advances(s: Step)
    ensures
        index_spec(next_spec(s)) >= index_spec(s),
        index_spec(s) < 5 ==> index_spec(next_spec(s)) == index_spec(s) + 1,
{
}

/// The result of the installation, as shown on the last pages.
#[derive(Debug, Clone)]
pub struct InstallOutcome {
    pub ok: bool,
    pub log: String,
    pub config_path: String,
}

/// What a successful installation reports.
#[derive(Debug, Clone)]
pub struct InstallReport {
    /// Where `config.json` was written, for display.
    pub config_path: String,
    pub npm_log: String,
    pub npm_ok: bool,
}

/// The outcome shown for the installation's result: its npm log and config
/// path on success, the error text otherwise.
pub fn outcome_of(res: Result<InstallReport, String>) -> (r: InstallOutcome)
    ensures
        r.ok == res is Ok,
        match res {
            Ok(rep) => r.log == rep.npm_log && r.config_path == rep.config_path,
            Err(e) => r.log == e && r.config_path@.len() == 0,
        },
{
    match res {
        Ok(rep) => InstallOutcome { ok: true, log: rep.npm_log, config_path: rep.config_path },
        Err(e) => InstallOutcome { ok: false, log: e, config_path: String::new() },
    }
}

/// Everything the wizard reacts to.
#[derive(Debug, Clone)]
pub enum Msg {
    Next,
    Back,
    NameChanged(String),
    AgeChanged(u32),
    NationalityChanged(String),
    TzChanged(String),
    StageChanged(String),
    CommunicationChanged(String),
    ModeChanged(String),
    TgTokenChanged(String),
    TgApiIdChanged(String),
    TgApiHashChanged(String),
    TgPhoneChanged(String),
    LlmPresetChanged(String),
    LlmModelChanged(String),
    LlmKeyChanged(String),
    StartInstall,
    InstallFinished(InstallOutcome),
    LaunchAndQuit,
    Quit,
    OpenLink(&'static str),
}

/// What the application must do after an update.
#[derive(Debug)]
pub enum Action {
    /// Run the installation (write the profile, install the npm package)
    /// with this form, then deliver `Msg::InstallFinished`.
    RunInstall(WizardData),
    /// Start the desktop app and exit.
    LaunchAndQuit,
    /// Exit.
    Quit,
    /// Open a URL in the browser.
    OpenLink(&'static str),
}

/// The wizard's state.
pub struct Model {
    pub step: Step,
    pub data: WizardData,
    pub preflight: PreflightReport,
    pub install: Option<InstallOutcome>,
    pub installing: bool,
}

/// On the summary and install pages the slug shown and installed is the
/// slug of the entered name.
pub open spec fn slug_current(m: Model) -> bool {
    (m.step == Step::Summary || m.step == Step::Installing || m.step == Step::Done)
        ==> m.data.slug@ == slug_of(m.data.name@)
}

/// The age a slider value sets (the form keeps ages as `u8`).
pub open spec fn age_of(v: u32) -> u8 {
    if v > 255 {
        255
    } else {
        v as u8
    }
}

impl Model {
    /// The wizard at start, on the welcome page, with the pre-flight result.
    pub fn new(preflight: PreflightReport) -> (r: Model)
        ensures
            r.step == Step::Welcome,
            r.preflight == preflight,
            r.install is None,
            !r.installing,
            is_default_form(r.data),
    {
        Model {
            step: Step::Welcome,
            data: WizardData::default(),
            preflight,
            install: None,
            installing: false,
        }
    }

    /// Applies one message; returns the action to perform, if any.
    pub fn update(&mut self, msg: Msg) -> (r: Option<Action>)
        ensures
            slug_current(*old(self)) && !(msg is StartInstall && old(self).step != Step::Summary)
                && !(msg is InstallFinished && old(self).step != Step::Installing) ==> slug_current(
                *final(self),
            ),
            match msg {
                Msg::Next => {
                    &&& final(self).step == next_spec(old(self).step)
                    &&& final(self).data == if final(self).step == Step::Summary {
                        WizardData { slug: final(self).data.slug, ..old(self).data }
                    } else {
                        old(self).data
                    }
                    &&& final(self).step == Step::Summary ==> final(self).data.slug@ == slug_of(
                        old(self).data.name@,
                    )
                    &&& final(self).preflight == old(self).preflight
                    &&& final(self).install == old(self).install
                    &&& final(self).installing == old(self).installing
                    &&& r is None
                },
                Msg::Back => *final(self) == (Model { step: prev_spec(old(self).step), ..*old(self) })
                    && r is None,
                Msg::NameChanged(v) => {
                    &&& *final(self) == (Model {
                        data: WizardData { name: v, slug: final(self).data.slug, ..old(self).data },
                        ..*old(self)
                    })
                    &&& final(self).data.slug@ == slug_of(v@)
                    &&& r is None
                },
                Msg::AgeChanged(v) => *final(self) == (Model {
                    data: WizardData { age: age_of(v), ..old(self).data },
                    ..*old(self)
                }) && r is None,
                Msg::NationalityChanged(v) => *final(self) == (Model {
                    data: WizardData { nationality: v, ..old(self).data },
                    ..*old(self)
                }) && r is None,
                Msg::TzChanged(v) => *final(self) == (Model {
                    data: WizardData { tz: v, ..old(self).data },
                    ..*old(self)
                }) && r is None,
                Msg::StageChanged(v) => *final(self) == (Model {
                    data: WizardData { stage: v, ..old(self).data },
                    ..*old(self)
                }) && r is None,
                Msg::CommunicationChanged(v) => *final(self) == (Model {
                    data: WizardData { communication: v, ..old(self).data },
                    ..*old(self)
                }) && r is None,
                Msg::ModeChanged(v) => *final(self) == (Model {
                    data: WizardData { mode: v, ..old(self).data },
                    ..*old(self)
                }) && r is None,
                Msg::TgTokenChanged(v) => *final(self) == (Model {
                    data: WizardData { tg_token: v, ..old(self).data },
                    ..*old(self)
                }) && r is None,
                Msg::TgApiIdChanged(v) => *final(self) == (Model {
                    data: WizardData { tg_api_id: v, ..old(self).data },
                    ..*old(self)
                }) && r is None,
                Msg::TgApiHashChanged(v) => *final(self) == (Model {
                    data: WizardData { tg_api_hash: v, ..old(self).data },
                    ..*old(self)
                }) && r is None,
                Msg::TgPhoneChanged(v) => *final(self) == (Model {
                    data: WizardData { tg_phone: v, ..old(self).data },
                    ..*old(self)
                }) && r is None,
                Msg::LlmPresetChanged(v) => *final(self) == (Model {
                    data: WizardData { llm_preset: v, ..old(self).data },
                    ..*old(self)
                }) && r is None,
                Msg::LlmModelChanged(v) => *final(self) == (Model {
                    data: WizardData { llm_model: v, ..old(self).data },
                    ..*old(self)
                }) && r is None,
                Msg::LlmKeyChanged(v) => *final(self) == (Model {
                    data: WizardData { llm_api_key: v, ..old(self).data },
                    ..*old(self)
                }) && r is None,
                Msg::StartInstall => {
                    &&& *final(self) == (Model {
                        installing: true,
                        step: Step::Installing,
                        ..*old(self)
                    })
                    &&& r matches Some(Action::RunInstall(d)) && d == old(self).data
                },
                Msg::InstallFinished(o) => *final(self) == (Model {
                    installing: false,
                    install: Some(o),
                    step: Step::Done,
                    ..*old(self)
                }) && r is None,
                Msg::LaunchAndQuit => *final(self) == *old(self) && r matches Some(
                    Action::LaunchAndQuit,
                ),
                Msg::Quit => *final(self) == *old(self) && r matches Some(Action::Quit),
                Msg::OpenLink(url) => *final(self) == *old(self) && (r matches Some(
                    Action::OpenLink(u),
                ) && u == url),
            },
    {
        match msg {
            Msg::Next => {
                self.step = next_step(self.step);
                if self.step == Step::Summary {
                    self.data.refresh_slug();
                }
                None
            },
            Msg::Back => {
                self.step = prev_step(self.step);
                None
            },
            Msg::NameChanged(v) => {
                self.data.name = v;
                self.data.refresh_slug();
                None
            },
            Msg::AgeChanged(v) => {
                self.data.age = if v > 255 {
                    255
                } else {
                    v as u8
                };
                None
            },
            Msg::NationalityChanged(v) => {
                self.data.nationality = v;
                None
            },
            Msg::TzChanged(v) => {
                self.data.tz = v;
                None
            },
            Msg::StageChanged(v) => {
                self.data.stage = v;
                None
            },
            Msg::CommunicationChanged(v) => {
                self.data.communication = v;
                None
            },
            Msg::ModeChanged(v) => {
                self.data.mode = v;
                None
            },
            Msg::TgTokenChanged(v) => {
                self.data.tg_token = v;
                None
            },
            Msg::TgApiIdChanged(v) => {
                self.data.tg_api_id = v;
                None
            },
            Msg::TgApiHashChanged(v) => {
                self.data.tg_api_hash = v;
                None
            },
            Msg::TgPhoneChanged(v) => {
                self.data.tg_phone = v;
                None
            },
            Msg::LlmPresetChanged(v) => {
                self.data.llm_preset = v;
                None
            },
            Msg::LlmModelChanged(v) => {
                self.data.llm_model = v;
                None
            },
            Msg::LlmKeyChanged(v) => {
                self.data.llm_api_key = v;
                None
            },
            Msg::StartInstall => {
                self.installing = true;
                self.step = Step::Installing;
                Some(Action::RunInstall(self.data.duplicate()))
            },
            Msg::InstallFinished(o) => {
                self.installing = false;
                self.install = Some(o);
                self.step = Step::Done;
                None
            },
            Msg::LaunchAndQuit => Some(Action::LaunchAndQuit),
            Msg::Quit => Some(Action::Quit),
            Msg::OpenLink(url) => Some(Action::OpenLink(url)),
        }
    }
}

/// The labels of a pick list, in order.
pub fn labels(list: &[Choice]) -> (r: Vec<String>)
    ensures
        r@.map_values(|s: String| s@) == list@.map_values(|c: Choice| c.label@),
{
    let mut r: Vec<String> = Vec::new();
    let mut i: usize = 0;
    while i < list.len()
        invariant
            i <= list@.len(),
            r@.map_values(|s: String| s@) == list@.subrange(0, i as int).map_values(
                |c: Choice| c.label@,
            ),
        decreases list@.len() - i,
    {
        let ghost before = r@;
        r.push(owned(list[i].label));
        proof {
            assert(list@.subrange(0, i + 1) =~= list@.subrange(0, i as int).push(list@[i as int]));
            assert(r@.map_values(|s: String| s@) =~= before.map_values(|s: String| s@).push(
                list@[i as int].label@,
            ));
            assert(list@.subrange(0, i + 1).map_values(|c: Choice| c.label@) =~= list@.subrange(
                0,
                i as int,
            ).map_values(|c: Choice| c.label@).push(list@[i as int].label@));
        }
        i = i + 1;
    }
    assert(list@.subrange(0, i as int) =~= list@);
    r
}

/// The first choice of `list` whose `key` field is `k`.
pub open spec fn first_index_where(list: Seq<ChoiceView>, by_label: bool, k: Seq<char>) -> Option<
    int,
>
    decreases list.len(),
{
    if list.len() == 0 {
        None
    } else if (if by_label {
        list[0].label
    } else {
        list[0].id
    }) == k {
        Some(0)
    } else {
        match first_index_where(list.drop_first(), by_label, k) {
            Some(i) => Some(i + 1),
            None => None,
        }
    }
}

/// The views of a list of choices.
pub open spec fn views(list: Seq<Choice>) -> Seq<ChoiceView> {
    list.map_values(|c: Choice| c@)
}

fn find_index(list: &[Choice], by_label: bool, k: &str) -> (r: Option<usize>)
    ensures
        r matches Some(i) ==> i < list@.len(),
        match first_index_where(views(list@), by_label, k@) {
            Some(i) => 0 <= i < list@.len() && r == Some(i as usize),
            None => r is None,
        },
{
    let ghost vs = views(list@);
    let mut i: usize = 0;
    assert(vs.skip(0) =~= vs);
    while i < list.len()
        invariant
            i <= list@.len(),
            vs == views(list@),
            first_index_where(vs, by_label, k@) == match first_index_where(
                vs.skip(i as int),
                by_label,
                k@,
            ) {
                Some(j) => Some(j + i),
                None => None,
            },
        decreases list@.len() - i,
    {
        assert(vs.skip(i as int)[0] == list@[i as int]@);
        assert(vs.skip(i as int).drop_first() =~= vs.skip(i + 1));
        let field = if by_label {
            list[i].label
        } else {
            list[i].id
        };
        if crate::text::str_eq(field, k) {
            return Some(i);
        }
        i = i + 1;
    }
    assert(vs.skip(i as int) =~= Seq::<ChoiceView>::empty());
    None
}

/// The label of the first choice with id `id`, or `id` itself.
pub open spec fn label_for(list: Seq<ChoiceView>, id: Seq<char>) -> Seq<char> {
    match first_index_where(list, false, id) {
        Some(i) => list[i].label,
        None => id,
    }
}

/// The id of the first choice labelled `label`, or the empty string.
pub open spec fn id_for(list: Seq<ChoiceView>, label: Seq<char>) -> Seq<char> {
    match first_index_where(list, true, label) {
        Some(i) => list[i].id,
        None => ""@,
    }
}

/// No two choices of `list` carry the same label.
pub open spec fn labels_distinct(list: Seq<ChoiceView>) -> bool {
    forall|i: int, j: int|
        0 <= i < j < list.len() ==> #[trigger] list[i].label != #[trigger] list[j].label
}

/// The field of `c` that a lookup compares: its label or its id.
pub open spec fn key_of(c: ChoiceView, by_label: bool) -> Seq<char> {
    if by_label {
        c.label
    } else {
        c.id
    }
}

proof fn lemma_first_match(list: Seq<ChoiceView>, by_label: bool, k: Seq<char>)
    ensures
        first_index_where(list, by_label, k) matches Some(i) ==> {
            &&& 0 <= i < list.len()
            &&& key_of(list[i], by_label) == k
            &&& forall|j: int| 0 <= j < i ==> key_of(#[trigger] list[j], by_label) != k
        },
        first_index_where(list, by_label, k) is None ==> forall|j: int|
            0 <= j < list.len() ==> key_of(#[trigger] list[j], by_label) != k,
    decreases list.len(),
{
    if list.len() > 0 {
        let rest = list.drop_first();
        lemma_first_match(rest, by_label, k);
        assert forall|j: int| 0 < j < list.len() implies #[trigger] list[j] == rest[j - 1] by {}
    }
}

/// Picking the label shown for a choice's id gives that id back, when the
/// labels of the list are distinct.
pub proof fn lemma_id_of_label_of(list: Seq<ChoiceView>, k: int)
    requires
        labels_distinct(list),
        0 <= k < list.len(),
    ensures
        id_for(list, label_for(list, list[k].id)) == list[k].id,
{
    let id = list[k].id;
    lemma_first_match(list, false, id);
    assert(key_of(list[k], false) == id);
    let i = first_index_where(list, false, id)->0;
    let label = list[i].label;
    lemma_first_match(list, true, label);
    assert(key_of(list[i], true) == label);
    let j = first_index_where(list, true, label)->0;
    assert(key_of(list[j], true) == label);
    if j < i {
        assert(list[j].label != list[i].label);
    } else if i < j {
        assert(list[i].label != list[j].label);
    }
}

/// A label no choice carries picks the empty id.
pub proof fn lemma_id_of_unknown_label(list: Seq<ChoiceView>, label: Seq<char>)
    requires
        forall|i: int| 0 <= i < list.len() ==> #[trigger] list[i].label != label,
    ensures
        id_for(list, label) == ""@,
{
    lemma_first_match(list, true, label);
    if first_index_where(list, true, label) is Some {
        let i = first_index_where(list, true, label)->0;
        assert(key_of(list[i], true) == label);
    }
}

/// The label shown for `id`: the label of the first choice with that id, or
/// the id itself when no choice has it.
pub fn label_of(list: &[Choice], id: &str) -> (r: String)
    ensures
        r@ == label_for(views(list@), id@),
{
    match find_index(list, false, id) {
        Some(i) => owned(list[i].label),
        None => owned(id),
    }
}

/// The id picked with `label`: the id of the first choice with that label,
/// or the empty string when no choice has it.
pub fn id_of(list: &[Choice], label: &str) -> (r: &'static str)
    ensures
        r@ == id_for(views(list@), label@),
{
    match find_index(list, true, label) {
        Some(i) => list[i].id,
        None => "",
    }
}

} // verus!
