//! Acquisition of the external tool: a fixed, platform-specific plan of
//! lookup and installation steps, tried in order until one yields the
//! executable or the plan is exhausted.
//!
//! The host performs the actual lookups, directory creation and install
//! commands; the [`Locator`] decides, step by step, what to try next and
//! when the search has succeeded or failed.

use vstd::prelude::*;
use vstd::string::StringExecFns;

use crate::platform::Platform;
use crate::platform::path_join;
use crate::platform::spec_path_join;
use crate::platform::spec_tool_name;
use crate::platform::tool_name;

verus! {

/// One installation strategy: a concrete external command whose success is
/// judged by its exit status together with a re-check that the tool's binary
/// now exists.
#[derive(Clone, Copy, PartialEq, Eq, Structural, Debug)]
pub enum Strategy {
    /// Pipe the remote install script into a shell via `curl`.
    ShellCurl,
    /// Pipe the remote install script into a shell via `wget`.
    ShellWget,
    /// Run the remote install script through the scripting shell.
    PowershellScript,
    /// Install through the system package manager.
    WingetPackage,
    /// Build from source with the general-purpose package manager,
    /// rooted at the install directory.
    CargoFromGit,
}

/// One step of the acquisition plan.
#[derive(Clone, Copy, PartialEq, Eq, Structural, Debug)]
pub enum PlanStep {
    /// Search the system executable search path for the candidate names.
    QueryPath,
    /// Check whether the tool already sits at its conventional location
    /// inside the install directory.
    QueryLocal,
    /// Create the install directory if it is missing.
    PrepareDir,
    /// Run one installation strategy.
    Install(Strategy),
}

/// The host's answer to one plan step.
pub enum Event {
    /// Result of a search-path lookup: the first path found, if any.
    PathQuery(Option<String>),
    /// Whether the tool's binary exists at its conventional local location.
    LocalQuery(bool),
    /// `None` if the install directory is ready, else the failure message.
    DirOutcome(Option<String>),
    /// Outcome of an install command: whether the command could be run at
    /// all, whether it reported success, and whether the tool's binary
    /// exists afterwards.
    InstallOutcome { ran: bool, status_ok: bool, binary_exists: bool },
}

/// Mathematical counterpart of [`Event`].
pub enum EventModel {
    PathQuery(Option<Seq<char>>),
    LocalQuery(bool),
    DirOutcome(Option<Seq<char>>),
    InstallOutcome { ran: bool, status_ok: bool, binary_exists: bool },
}

impl View for Event {
    type V = EventModel;

    open spec fn view(&self) -> EventModel {
        match self {
            Event::PathQuery(o) => EventModel::PathQuery(
                match o {
                    Some(s) => Some(s@),
                    None => None,
                },
            ),
            Event::LocalQuery(b) => EventModel::LocalQuery(*b),
            Event::DirOutcome(o) => EventModel::DirOutcome(
                match o {
                    Some(s) => Some(s@),
                    None => None,
                },
            ),
            Event::InstallOutcome { ran, status_ok, binary_exists } => (
                EventModel::InstallOutcome {
                    ran: *ran,
                    status_ok: *status_ok,
                    binary_exists: *binary_exists,
                }
            ),
        }
    }
}

/// How the search ends.
pub enum Outcome {
    /// Still work to do.
    Pending,
    /// The tool was found or installed; the path to its executable.
    Resolved(String),
    /// Every step failed; the failure message.
    Exhausted(String),
}

/// Mathematical counterpart of [`Outcome`].
pub enum OutcomeModel {
    Pending,
    Resolved(Seq<char>),
    Exhausted(Seq<char>),
}

impl View for Outcome {
    type V = OutcomeModel;

    open spec fn view(&self) -> OutcomeModel {
        match self {
            Outcome::Pending => OutcomeModel::Pending,
            Outcome::Resolved(s) => OutcomeModel::Resolved(s@),
            Outcome::Exhausted(s) => OutcomeModel::Exhausted(s@),
        }
    }
}

/// The fixed acquisition plan for a platform: search path, local copy,
/// directory preparation, then the installation strategies in priority
/// order, each success-checked, ending with a final search-path re-check.
pub open spec fn spec_plan(p: Platform) -> Seq<PlanStep> {
    match p {
        Platform::Unix => seq![
            PlanStep::QueryPath,
            PlanStep::QueryLocal,
            PlanStep::PrepareDir,
            PlanStep::Install(Strategy::ShellCurl),
            PlanStep::Install(Strategy::ShellWget),
            PlanStep::Install(Strategy::CargoFromGit),
            PlanStep::QueryPath,
        ],
        Platform::Windows => seq![
            PlanStep::QueryPath,
            PlanStep::QueryLocal,
            PlanStep::PrepareDir,
            PlanStep::Install(Strategy::PowershellScript),
            PlanStep::Install(Strategy::WingetPackage),
            PlanStep::QueryPath,
            PlanStep::Install(Strategy::CargoFromGit),
            PlanStep::QueryPath,
        ],
    }
}

/// The acquisition plan as a vector.
pub fn plan(p: Platform) -> (v: Vec<PlanStep>)
    ensures
        v@ == spec_plan(p),
{
    let mut v: Vec<PlanStep> = Vec::new();
    v.push(PlanStep::QueryPath);
    v.push(PlanStep::QueryLocal);
    v.push(PlanStep::PrepareDir);
    match p {
        Platform::Unix => {
            v.push(PlanStep::Install(Strategy::ShellCurl));
            v.push(PlanStep::Install(Strategy::ShellWget));
            v.push(PlanStep::Install(Strategy::CargoFromGit));
            v.push(PlanStep::QueryPath);
            proof {
                assert(v@ =~= spec_plan(p));
            }
        },
        Platform::Windows => {
            v.push(PlanStep::Install(Strategy::PowershellScript));
            v.push(PlanStep::Install(Strategy::WingetPackage));
            v.push(PlanStep::QueryPath);
            v.push(PlanStep::Install(Strategy::CargoFromGit));
            v.push(PlanStep::QueryPath);
            proof {
                assert(v@ =~= spec_plan(p));
            }
        },
    }
    v
}

/// The external command that carries out one installation strategy, as the
/// program followed by its arguments. `dir` is the install directory.
pub open spec fn spec_strategy_command(s: Strategy, dir: Seq<char>) -> Seq<Seq<char>> {
    match s {
        Strategy::ShellCurl => seq![
            "sh"@,
            "-c"@,
            "cd "@ + dir + " && curl -LsSf https://astral.sh/uv/install.sh | sh"@,
        ],
        Strategy::ShellWget => seq![
            "sh"@,
            "-c"@,
            "cd "@ + dir + " && wget -qO- https://astral.sh/uv/install.sh | sh"@,
        ],
        Strategy::PowershellScript => seq![
            "cmd"@,
            "/C"@,
            "cd "@ + dir
                + " ; powershell -ExecutionPolicy ByPass -c \"irm https://astral.sh/uv/install.ps1 | iex\""@,
        ],
        Strategy::WingetPackage => seq!["winget"@, "install"@, "--id"@, "astral-sh.uv"@, "-e"@],
        Strategy::CargoFromGit => seq![
            "cargo"@,
            "install"@,
            "--git"@,
            "https://github.com/astral-sh/uv"@,
            "uv"@,
            "--root"@,
            dir,
        ],
    }
}

/// The external command for one installation strategy: the program followed
/// by its arguments, with `install_dir` spliced in where the strategy needs
/// it.
pub fn strategy_command(s: Strategy, install_dir: &str) -> (cmd: Vec<String>)
    ensures
        cmd@.len() == spec_strategy_command(s, install_dir@).len(),
        forall|i: int|
            0 <= i < cmd@.len() ==> cmd@[i]@ == spec_strategy_command(s, install_dir@)[i],
{
    let mut v: Vec<String> = Vec::new();
    match s {
        Strategy::ShellCurl => {
            v.push("sh".to_owned());
            v.push("-c".to_owned());
            let mut script: String = "cd ".to_owned();
            script.append(install_dir);
            script.append(" && curl -LsSf https://astral.sh/uv/install.sh | sh");
            v.push(script);
        },
        Strategy::ShellWget => {
            v.push("sh".to_owned());
            v.push("-c".to_owned());
            let mut script: String = "cd ".to_owned();
            script.append(install_dir);
            script.append(" && wget -qO- https://astral.sh/uv/install.sh | sh");
            v.push(script);
        },
        Strategy::PowershellScript => {
            v.push("cmd".to_owned());
            v.push("/C".to_owned());
            let mut script: String = "cd ".to_owned();
            script.append(install_dir);
            script.append(
                " ; powershell -ExecutionPolicy ByPass -c \"irm https://astral.sh/uv/install.ps1 | iex\"",
            );
            v.push(script);
        },
        Strategy::WingetPackage => {
            v.push("winget".to_owned());
            v.push("install".to_owned());
            v.push("--id".to_owned());
            v.push("astral-sh.uv".to_owned());
            v.push("-e".to_owned());
        },
        Strategy::CargoFromGit => {
            v.push("cargo".to_owned());
            v.push("install".to_owned());
            v.push("--git".to_owned());
            v.push("https://github.com/astral-sh/uv".to_owned());
            v.push("uv".to_owned());
            v.push("--root".to_owned());
            v.push(install_dir.to_owned());
        },
    }
    v
}

/// The first search-path hit among the per-candidate lookup results, in
/// candidate order.
pub open spec fn spec_first_hit(results: Seq<Option<String>>) -> Option<Seq<char>>
    decreases results.len(),
{
    if results.len() == 0 {
        None
    } else {
        match results[0] {
            Some(path) => Some(path@),
            None => spec_first_hit(results.drop_first()),
        }
    }
}

/// Picks the first hit among the search-path lookup results gathered for
/// the candidate names, keeping candidate order.
pub fn first_hit(results: &Vec<Option<String>>) -> (r: Option<String>)
    ensures
        match r {
            Some(path) => spec_first_hit(results@) == Some(path@),
            None => spec_first_hit(results@) is None,
        },
{
    let n = results.len();
    proof {
        assert(results@.skip(0) =~= results@);
    }
    for i in 0..n
        invariant
            n == results@.len(),
            spec_first_hit(results@) == spec_first_hit(results@.skip(i as int)),
    {
        proof {
            assert(results@.skip(i as int)[0] == results@[i as int]);
            assert(results@.skip(i as int).drop_first() =~= results@.skip(i + 1));
        }
        match &results[i] {
            Some(path) => {
                return Some(path.clone());
            },
            None => {},
        }
    }
    proof {
        assert(results@.skip(n as int).len() == 0);
    }
    None
}

/// Message returned when every acquisition step has failed.
pub open spec fn spec_install_failure_msg() -> Seq<char> {
    "Failed to install or locate uvx with all available methods"@
}

/// Message returned when every acquisition step has failed.
pub fn install_failure_message() -> (r: String)
    ensures
        r@ == spec_install_failure_msg(),
{
    "Failed to install or locate uvx with all available methods".to_owned()
}

/// Whether an event is an answer of the right shape for a plan step.
pub open spec fn event_matches(step: PlanStep, e: EventModel) -> bool {
    match (step, e) {
        (PlanStep::QueryPath, EventModel::PathQuery(_)) => true,
        (PlanStep::QueryLocal, EventModel::LocalQuery(_)) => true,
        (PlanStep::PrepareDir, EventModel::DirOutcome(_)) => true,
        (PlanStep::Install(_), EventModel::InstallOutcome { .. }) => true,
        _ => false,
    }
}

/// Mathematical state of a [`Locator`].
pub struct LocatorModel {
    pub platform: Platform,
    /// The tool's conventional location inside the install directory.
    pub local_bin: Seq<char>,
    /// Index of the next plan step to perform.
    pub index: int,
    pub outcome: OutcomeModel,
}

impl LocatorModel {
    /// Well-formedness: the step index stays inside the plan while the
    /// search is still pending.
    pub open spec fn inv(self) -> bool {
        &&& 0 <= self.index <= spec_plan(self.platform).len()
        &&& (self.outcome is Pending ==> self.index < spec_plan(self.platform).len())
    }
}

/// One transition of the locator: the pending plan step is answered by the
/// event, and the search either resolves, fails, or moves to the next step.
pub open spec fn spec_locator_step(m: LocatorModel, e: EventModel) -> LocatorModel
    recommends
        m.inv(),
        m.outcome is Pending,
        event_matches(spec_plan(m.platform)[m.index], e),
{
    let step = spec_plan(m.platform)[m.index];
    let advanced = if m.index + 1 < spec_plan(m.platform).len() {
        LocatorModel { index: m.index + 1, ..m }
    } else {
        LocatorModel { outcome: OutcomeModel::Exhausted(spec_install_failure_msg()), ..m }
    };
    match (step, e) {
        (PlanStep::QueryPath, EventModel::PathQuery(found)) => match found {
            Some(path) => LocatorModel { outcome: OutcomeModel::Resolved(path), ..m },
            None => advanced,
        },
        (PlanStep::QueryLocal, EventModel::LocalQuery(present)) => if present {
            LocatorModel { outcome: OutcomeModel::Resolved(m.local_bin), ..m }
        } else {
            advanced
        },
        (PlanStep::PrepareDir, EventModel::DirOutcome(failure)) => match failure {
            Some(msg) => LocatorModel { outcome: OutcomeModel::Exhausted(msg), ..m },
            None => advanced,
        },
        (PlanStep::Install(_), EventModel::InstallOutcome { ran, status_ok, binary_exists }) => (
            if ran && status_ok && binary_exists {
                LocatorModel { outcome: OutcomeModel::Resolved(m.local_bin), ..m }
            } else {
                advanced
            }
        ),
        _ => m,
    }
}

/// Drives the acquisition of the external tool: holds the position in the
/// plan and the result so far. The host asks [`Locator::next_step`] what to
/// do, performs it, and reports back through [`Locator::step`].
pub struct Locator {
    platform: Platform,
    local_bin: String,
    index: usize,
    outcome: Outcome,
}

impl View for Locator {
    type V = LocatorModel;

    closed spec fn view(&self) -> LocatorModel {
        LocatorModel {
            platform: self.platform,
            local_bin: self.local_bin@,
            index: self.index as int,
            outcome: self.outcome@,
        }
    }
}

impl Locator {
    pub open spec fn inv(self) -> bool {
        self@.inv()
    }

    /// A fresh search for the tool, to be installed under `install_dir`
    /// if it cannot be found.
    pub fn new(p: Platform, install_dir: &str) -> (l: Locator)
        ensures
            l@ == (LocatorModel {
                platform: p,
                local_bin: spec_path_join(p, install_dir@, spec_tool_name(p)),
                index: 0,
                outcome: OutcomeModel::Pending,
            }),
            l.inv(),
    {
        let name = tool_name(p);
        Locator {
            platform: p,
            local_bin: path_join(p, install_dir, name.as_str()),
            index: 0,
            outcome: Outcome::Pending,
        }
    }

    /// The plan step the host must perform next, or `None` once the search
    /// has ended.
    pub fn next_step(&self) -> (s: Option<PlanStep>)
        requires
            self.inv(),
        ensures
            match s {
                Some(step) => self@.outcome is Pending && step == spec_plan(self@.platform)[self@.index],
                None => !(self@.outcome is Pending),
            },
    {
        match &self.outcome {
            Outcome::Pending => {
                let v = plan(self.platform);
                Some(v[self.index])
            },
            _ => None,
        }
    }

    /// Feed back the host's answer to the pending plan step.
    pub fn step(&mut self, e: Event)
        requires
            old(self).inv(),
            old(self)@.outcome is Pending,
            event_matches(spec_plan(old(self)@.platform)[old(self)@.index], e@),
        ensures
            final(self)@ == spec_locator_step(old(self)@, e@),
            final(self).inv(),
    {
        let v = plan(self.platform);
        let step = v[self.index];
        let hit: Option<String> = match (step, e) {
            (PlanStep::QueryPath, Event::PathQuery(found)) => found,
            (PlanStep::QueryLocal, Event::LocalQuery(present)) => if present {
                Some(self.local_bin.clone())
            } else {
                None
            },
            (PlanStep::PrepareDir, Event::DirOutcome(failure)) => {
                match failure {
                    Some(msg) => {
                        self.outcome = Outcome::Exhausted(msg);
                        return ;
                    },
                    None => None,
                }
            },
            (PlanStep::Install(_), Event::InstallOutcome { ran, status_ok, binary_exists }) => (
                if ran && status_ok && binary_exists {
                    Some(self.local_bin.clone())
                } else {
                    None
                }
            ),
            (_, _) => {
                return ;
            },
        };
        match hit {
            Some(path) => {
                self.outcome = Outcome::Resolved(path);
            },
            None => {
                if self.index + 1 < v.len() {
                    self.index = self.index + 1;
                } else {
                    self.outcome = Outcome::Exhausted(install_failure_message());
                }
            },
        }
    }

    /// The search's result: `None` while pending, else the resolved path or
    /// the failure message.
    pub fn outcome(&self) -> (r: Option<Result<String, String>>)
        ensures
            match r {
                None => self@.outcome is Pending,
                Some(Ok(path)) => self@.outcome == OutcomeModel::Resolved(path@),
                Some(Err(msg)) => self@.outcome == OutcomeModel::Exhausted(msg@),
            },
    {
        match &self.outcome {
            Outcome::Pending => None,
            Outcome::Resolved(path) => Some(Ok(path.clone())),
            Outcome::Exhausted(msg) => Some(Err(msg.clone())),
        }
    }
}

/// Evidence, carried by an event, that `path` names an existing executable:
/// a search-path lookup returned it, or the tool's binary was observed to
/// exist at its conventional local location `local_bin`.
pub open spec fn event_witnesses_path(e: EventModel, path: Seq<char>, local_bin: Seq<char>) -> bool {
    ||| (e matches EventModel::PathQuery(Some(q)) && q == path)
    ||| (e matches EventModel::LocalQuery(true) && path == local_bin)
    ||| (e matches EventModel::InstallOutcome { ran: _, status_ok: _, binary_exists: true }
        && path == local_bin)
}

/// Resolution carries evidence: whenever a locator transition announces a
/// resolved path, the event that triggered it witnessed that very path —
/// either a search-path hit on it, or an observation that the tool's binary
/// exists at its conventional local location. In particular, the search
/// never reports success on an event that observed the target binary to be
/// absent.
pub proof fn lemma_resolution_needs_evidence(m: LocatorModel, e: EventModel)
    requires
        m.inv(),
        m.outcome is Pending,
    ensures
        spec_locator_step(m, e).outcome matches OutcomeModel::Resolved(path)
            ==> event_witnesses_path(e, path, m.local_bin),
        e matches EventModel::InstallOutcome { ran: _, status_ok: _, binary_exists: false }
            ==> !(spec_locator_step(m, e).outcome is Resolved),
        e matches EventModel::LocalQuery(false) ==> !(spec_locator_step(m, e).outcome is Resolved),
        e matches EventModel::PathQuery(None) ==> !(spec_locator_step(m, e).outcome is Resolved),
{
}

/// A whole search: the locator is driven by one event per pending step
/// until the events run out or the search ends.
pub open spec fn spec_locator_run(m: LocatorModel, events: Seq<EventModel>) -> LocatorModel
    decreases events.len(),
{
    if events.len() == 0 || !(m.outcome is Pending) {
        m
    } else {
        spec_locator_run(spec_locator_step(m, events[0]), events.drop_first())
    }
}

/// A transition never touches the platform, the conventional local
/// location, or well-formedness.
pub proof fn lemma_step_preserves_frame(m: LocatorModel, e: EventModel)
    requires
        m.inv(),
        m.outcome is Pending,
    ensures
        spec_locator_step(m, e).inv(),
        spec_locator_step(m, e).platform == m.platform,
        spec_locator_step(m, e).local_bin == m.local_bin,
{
}

/// Resolution carries evidence over a whole search: however many steps a
/// run takes, if it ends with a resolved path, then it either began
/// resolved on that path, or some event along the way witnessed that very
/// path — so the search never reports success without an existence check
/// that passed.
pub proof fn lemma_run_resolution_needs_evidence(m: LocatorModel, events: Seq<EventModel>)
    requires
        m.inv(),
    ensures
        spec_locator_run(m, events).outcome matches OutcomeModel::Resolved(path) ==> (m.outcome
            == OutcomeModel::Resolved(path) || exists|i: int|
            0 <= i < events.len() && event_witnesses_path(events[i], path, m.local_bin)),
    decreases events.len(),
{
    if events.len() == 0 || !(m.outcome is Pending) {
    } else {
        let m1 = spec_locator_step(m, events[0]);
        lemma_step_preserves_frame(m, events[0]);
        lemma_resolution_needs_evidence(m, events[0]);
        lemma_run_resolution_needs_evidence(m1, events.drop_first());
        match spec_locator_run(m, events).outcome {
            OutcomeModel::Resolved(path) => {
                if m1.outcome == OutcomeModel::Resolved(path) {
                    assert(event_witnesses_path(events[0], path, m.local_bin));
                } else {
                    let i = choose|i: int|
                        0 <= i < events.drop_first().len() && event_witnesses_path(
                            events.drop_first()[i],
                            path,
                            m1.local_bin,
                        );
                    assert(events.drop_first()[i] == events[i + 1]);
                    assert(event_witnesses_path(events[i + 1], path, m.local_bin));
                }
            },
            _ => {},
        }
    }
}

/// Failure is signalled only once every step has been exhausted: a
/// transition ends in `Exhausted` only from the last plan step, or because
/// the install directory could not be created at all.
pub proof fn lemma_failure_only_after_exhaustion(m: LocatorModel, e: EventModel)
    requires
        m.inv(),
        m.outcome is Pending,
        event_matches(spec_plan(m.platform)[m.index], e),
    ensures
        spec_locator_step(m, e).outcome is Exhausted ==> (m.index + 1 == spec_plan(
            m.platform,
        ).len() || (spec_plan(m.platform)[m.index] is PrepareDir && e matches EventModel::DirOutcome(
            Some(_),
        ))),
{
}

/// Every answered step makes progress: while the search stays pending, the
/// plan index advances by exactly one, so the host's driving loop performs
/// at most as many steps as the plan holds.
pub proof fn lemma_search_progresses(m: LocatorModel, e: EventModel)
    requires
        m.inv(),
        m.outcome is Pending,
        event_matches(spec_plan(m.platform)[m.index], e),
    ensures
        spec_locator_step(m, e).outcome is Pending ==> spec_locator_step(m, e).index == m.index
            + 1,
        spec_locator_step(m, e).inv(),
{
}

} // verus!
