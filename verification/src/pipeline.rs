//! The per-group pipeline state machine. It decides, from the current
//! state and the outcome of the last external step, what the shell does
//! next: create the workspace, decode every input, run the fixed tool
//! sequence against the shared project file, relocate the output, delete
//! the sources if asked, and always remove the workspace at the end.
//! The shell performs each action and reports its outcome back as an
//! event; every decision lives here and is verified.

use crate::batch::clone_range;
use crate::hugin::StageCommand;
use crate::hugin::autooptimiser;
use crate::hugin::autooptimiser_args;
use crate::hugin::cpclean;
use crate::hugin::cpclean_args;
use crate::hugin::cpfind;
use crate::hugin::cpfind_args;
use crate::hugin::executor;
use crate::hugin::executor_args;
use crate::hugin::linefind;
use crate::hugin::linefind_args;
use crate::hugin::pano_modify;
use crate::hugin::pano_modify_args;
use crate::hugin::pto_gen;
use crate::hugin::pto_gen_args;
use crate::libraw::Error;
use crate::naming::artifact_filename;
use crate::naming::artifact_name_chars;
use crate::paths::path_chars;
use crate::paths::path_join;
use vstd::pervasive::unreached;
use vstd::prelude::*;

verus! {

/// The external-tool stages of one group's pipeline, in their fixed
/// order. Each one rewrites the shared project file in place, except the
/// first, which creates it, and the last, which writes the panorama.
#[derive(PartialEq, Eq, Structural, Clone, Copy, Debug)]
pub enum Stage {
    CreateProject,
    FindControlPoints,
    CleanControlPoints,
    FindLines,
    Optimize,
    Modify,
    Stitch,
}

/// The stage that follows `st`; `None` after the final stitch.
pub open spec fn stage_after(st: Stage) -> Option<Stage> {
    match st {
        Stage::CreateProject => Some(Stage::FindControlPoints),
        Stage::FindControlPoints => Some(Stage::CleanControlPoints),
        Stage::CleanControlPoints => Some(Stage::FindLines),
        Stage::FindLines => Some(Stage::Optimize),
        Stage::Optimize => Some(Stage::Modify),
        Stage::Modify => Some(Stage::Stitch),
        Stage::Stitch => None,
    }
}

/// The position of `st` in the fixed stage order.
pub open spec fn stage_index(st: Stage) -> int {
    match st {
        Stage::CreateProject => 0,
        Stage::FindControlPoints => 1,
        Stage::CleanControlPoints => 2,
        Stage::FindLines => 3,
        Stage::Optimize => 4,
        Stage::Modify => 5,
        Stage::Stitch => 6,
    }
}

/// Where a group's run failed. Each failure aborts the group; the
/// workspace is still removed.
pub enum GroupError {
    /// The temporary workspace could not be created.
    WorkspaceCreate,
    /// Decoding the input at `index` failed; no tool stage has run.
    Decode { index: usize, error: Error },
    /// The external program of `stage` could not be spawned.
    ToolSpawn { stage: Stage },
    /// The external program of `stage` exited with a non-zero status.
    ToolStatus { stage: Stage, code: i32 },
    /// The stitched output could not be moved to its final path, after
    /// every computation stage had succeeded.
    Relocate,
    /// A source file could not be deleted after full success; the
    /// produced output stands.
    SourceDelete { index: usize },
    /// The workspace could not be removed at the end.
    WorkspaceRemove,
}

/// How far a group's run has progressed.
#[derive(PartialEq, Eq, Structural, Clone, Copy, Debug)]
pub enum Phase {
    /// No workspace yet; nothing has run.
    NeedWorkspace,
    /// The workspace exists; the inputs are being decoded.
    Decoding,
    /// All inputs decoded; `stage` is the tool stage to run next.
    Running { stage: Stage },
    /// The stitch succeeded; the output awaits relocation.
    Relocating,
    /// The output is final; source `next` is to be deleted.
    DeletingSources { next: usize },
    /// The run is over but the workspace still exists.
    Cleanup,
    /// The run is over and the workspace is gone.
    Done,
}

/// What the shell is asked to do next.
pub enum Action {
    /// Create a fresh, uniquely named temporary directory.
    CreateWorkspace,
    /// Decode every input, in any order or in parallel: `inputs[i]` is
    /// decoded and exported to `artifacts[i]`.
    DecodeAll { inputs: Vec<String>, artifacts: Vec<String> },
    /// Spawn the stage's program in the workspace and wait for it.
    RunTool { stage: Stage, command: StageCommand },
    /// Move the stitched output from the workspace to its final path.
    Relocate { from: String, to: String },
    /// Delete one original source file.
    DeleteSource { index: usize, path: String },
    /// Recursively remove the workspace directory.
    RemoveWorkspace { path: String },
    /// Nothing is left to do; report the outcome.
    Finish { failed: bool },
}

/// What the shell reports back.
pub enum Event {
    WorkspaceReady { path: String },
    WorkspaceFailed,
    /// One result per input, in input order.
    DecodeFinished { results: Vec<Result<(), Error>> },
    ToolSpawnFailed,
    ToolExited { code: i32 },
    RelocateFinished { ok: bool },
    DeleteFinished { ok: bool },
    RemoveFinished { ok: bool },
}

/// Whether every decode succeeded.
pub open spec fn all_ok(rs: Seq<Result<(), Error>>) -> bool {
    forall|j: int| 0 <= j < rs.len() ==> !((#[trigger] rs[j]) is Err)
}

/// The index of the first failed decode.
pub open spec fn first_err(rs: Seq<Result<(), Error>>) -> int
    decreases rs.len(),
{
    if rs.len() == 0 {
        0
    } else if rs.first() is Err {
        0
    } else {
        1 + first_err(rs.drop_first())
    }
}

proof fn lemma_first_err_at(rs: Seq<Result<(), Error>>, i: int)
    requires
        0 <= i < rs.len(),
        forall|j: int| 0 <= j < i ==> !((#[trigger] rs[j]) is Err),
        rs[i] is Err,
    ensures
        first_err(rs) == i,
    decreases rs.len(),
{
    if i > 0 {
        assert(rs.first() == rs[0]);
        lemma_first_err_at(rs.drop_first(), i - 1);
    }
}

/// The path of the shared project file inside workspace `ws`.
pub open spec fn project_chars(ws: Seq<char>) -> Seq<char> {
    path_chars(ws, "project.pto"@)
}

/// The path under which the stitcher leaves its output inside `ws`.
pub open spec fn result_chars(ws: Seq<char>) -> Seq<char> {
    path_chars(ws, "result.tif"@)
}

/// The artifact paths for `n` inputs inside workspace `ws`, in input
/// order.
pub open spec fn artifact_paths(ws: Seq<char>, n: int) -> Seq<Seq<char>> {
    Seq::new(if n < 0 { 0 } else { n as nat }, |i: int| path_chars(ws, artifact_name_chars(i)))
}

/// The program run by `st`.
pub open spec fn stage_program(st: Stage) -> Seq<char> {
    match st {
        Stage::CreateProject => "pto_gen"@,
        Stage::FindControlPoints => "cpfind"@,
        Stage::CleanControlPoints => "cpclean"@,
        Stage::FindLines => "linefind"@,
        Stage::Optimize => "autooptimiser"@,
        Stage::Modify => "pano_modify"@,
        Stage::Stitch => "hugin_executor"@,
    }
}

/// The arguments of `st` for a group with `n` inputs in workspace `ws`.
pub open spec fn stage_args(st: Stage, ws: Seq<char>, n: int) -> Seq<Seq<char>> {
    match st {
        Stage::CreateProject => pto_gen_args(project_chars(ws), artifact_paths(ws, n)),
        Stage::FindControlPoints => cpfind_args(project_chars(ws)),
        Stage::CleanControlPoints => cpclean_args(project_chars(ws)),
        Stage::FindLines => linefind_args(project_chars(ws)),
        Stage::Optimize => autooptimiser_args(project_chars(ws)),
        Stage::Modify => pano_modify_args(project_chars(ws)),
        Stage::Stitch => executor_args(project_chars(ws)),
    }
}

/// One group's pipeline run.
pub struct GroupRun {
    /// The group's source files, in order. Never empty.
    pub inputs: Vec<String>,
    /// Whether the sources are deleted after full success.
    pub delete_sources: bool,
    /// The caller-supplied final path of the stitched output.
    pub output: String,
    /// The workspace directory, between its creation and its removal.
    pub workspace: Option<String>,
    pub phase: Phase,
    /// The first failure, if any.
    pub failure: Option<GroupError>,
}

impl GroupRun {
    /// The state machine's invariant: the workspace exists in exactly
    /// the phases that use it — in particular it is gone when the run is
    /// done — and no tool stage runs while a failure is recorded.
    pub open spec fn wf(self) -> bool {
        &&& self.inputs.len() >= 1
        &&& match self.phase {
            Phase::NeedWorkspace => self.workspace is None && self.failure is None,
            Phase::Decoding => self.workspace is Some && self.failure is None,
            Phase::Running { .. } => self.workspace is Some && self.failure is None,
            Phase::Relocating => self.workspace is Some && self.failure is None,
            Phase::DeletingSources { next } => self.workspace is Some && next < self.inputs.len(),
            Phase::Cleanup => self.workspace is Some,
            Phase::Done => self.workspace is None,
        }
    }

    /// The state a group starts in.
    pub open spec fn initial(inputs: Vec<String>, delete_sources: bool, output: String) -> GroupRun {
        GroupRun {
            inputs,
            delete_sources,
            output,
            workspace: None,
            phase: Phase::NeedWorkspace,
            failure: None,
        }
    }

    /// Start a run for one group. Refuses an empty group: the pipeline
    /// has nothing to stitch.
    pub fn new(inputs: Vec<String>, delete_sources: bool, output: String) -> (r: Result<
        GroupRun,
        ConfigError,
    >)
        ensures
            inputs.len() == 0 ==> (r matches Err(e) && e == ConfigError::NoInputs),
            inputs.len() >= 1 ==> (r matches Ok(g) && g == GroupRun::initial(
                inputs,
                delete_sources,
                output,
            ) && g.wf()),
    {
        if inputs.len() == 0 {
            return Err(ConfigError::NoInputs);
        }
        Ok(
            GroupRun {
                inputs,
                delete_sources,
                output,
                workspace: None,
                phase: Phase::NeedWorkspace,
                failure: None,
            },
        )
    }

    /// The model of the action the run asks for in state `s`.
    pub open spec fn next_action_model(s: GroupRun) -> ActionModel {
        let ws = s.workspace->Some_0@;
        match s.phase {
            Phase::NeedWorkspace => ActionModel::CreateWorkspace,
            Phase::Decoding => ActionModel::DecodeAll {
                inputs: s.inputs.deep_view(),
                artifacts: artifact_paths(ws, s.inputs.len() as int),
            },
            Phase::Running { stage } => ActionModel::RunTool {
                stage,
                program: stage_program(stage),
                working_dir: ws,
                args: stage_args(stage, ws, s.inputs.len() as int),
            },
            Phase::Relocating => ActionModel::Relocate { from: result_chars(ws), to: s.output@ },
            Phase::DeletingSources { next } => ActionModel::DeleteSource {
                index: next as int,
                path: s.inputs.deep_view()[next as int],
            },
            Phase::Cleanup => ActionModel::RemoveWorkspace { path: ws },
            Phase::Done => ActionModel::Finish { failed: s.failure is Some },
        }
    }

    /// What the shell does next. The run only ever asks for the one
    /// action its phase calls for: the project is created only after
    /// every input's artifact, each tool only after its predecessor, the
    /// relocation only after the stitch, and the workspace removal before
    /// the run finishes.
    pub fn next_action(&self) -> (a: Action)
        requires
            self.wf(),
        ensures
            action_model(a) == Self::next_action_model(*self),
    {
        match self.phase {
            Phase::NeedWorkspace => Action::CreateWorkspace,
            Phase::Decoding => {
                let ws = self.workspace.as_ref().unwrap();
                let inputs = clone_range(&self.inputs, 0, self.inputs.len());
                let artifacts = artifact_paths_exec(ws.as_str(), self.inputs.len());
                proof {
                    assert(inputs.deep_view() =~= self.inputs.deep_view());
                    assert(action_model(
                        Action::DecodeAll { inputs, artifacts },
                    ) =~= Self::next_action_model(*self));
                }
                Action::DecodeAll { inputs, artifacts }
            },
            Phase::Running { stage } => {
                let command = self.stage_command(stage);
                proof {
                    assert(action_model(
                        Action::RunTool { stage, command },
                    ) =~= Self::next_action_model(*self));
                }
                Action::RunTool { stage, command }
            },
            Phase::Relocating => {
                let ws = self.workspace.as_ref().unwrap();
                let from = path_join(ws.as_str(), "result.tif");
                let to = self.output.clone();
                Action::Relocate { from, to }
            },
            Phase::DeletingSources { next } => {
                let path = self.inputs[next].clone();
                Action::DeleteSource { index: next, path }
            },
            Phase::Cleanup => {
                let ws = self.workspace.as_ref().unwrap();
                Action::RemoveWorkspace { path: ws.clone() }
            },
            Phase::Done => Action::Finish { failed: self.failure.is_some() },
        }
    }

    /// The command of `stage` for this run.
    fn stage_command(&self, stage: Stage) -> (c: StageCommand)
        requires
            self.wf(),
            self.workspace is Some,
        ensures
            c.program@ == stage_program(stage),
            c.working_dir@ == self.workspace->Some_0@,
            c.args.deep_view() == stage_args(
                stage,
                self.workspace->Some_0@,
                self.inputs.len() as int,
            ),
    {
        let ws = self.workspace.as_ref().unwrap();
        let project = path_join(ws.as_str(), "project.pto");
        match stage {
            Stage::CreateProject => {
                let artifacts = artifact_paths_exec(ws.as_str(), self.inputs.len());
                proof {
                    assert(artifacts.deep_view().len() == self.inputs.len());
                    assert(artifacts@.len() == artifacts.deep_view().len());
                }
                match pto_gen(project.as_str(), &artifacts, ws.as_str()) {
                    Some(c) => c,
                    None => unreached(),
                }
            },
            Stage::FindControlPoints => cpfind(project.as_str(), ws.as_str()),
            Stage::CleanControlPoints => cpclean(project.as_str(), ws.as_str()),
            Stage::FindLines => linefind(project.as_str(), ws.as_str()),
            Stage::Optimize => autooptimiser(project.as_str(), ws.as_str()),
            Stage::Modify => pano_modify(project.as_str(), ws.as_str()),
            Stage::Stitch => executor(project.as_str(), ws.as_str()),
        }
    }

    /// The state after event `e` arrives in state `s`. An event that
    /// does not answer the pending action leaves the state unchanged.
    pub open spec fn step(s: GroupRun, e: Event) -> GroupRun {
        match (s.phase, e) {
            (Phase::NeedWorkspace, Event::WorkspaceReady { path }) => GroupRun {
                workspace: Some(path),
                phase: Phase::Decoding,
                ..s
            },
            (Phase::NeedWorkspace, Event::WorkspaceFailed) => GroupRun {
                failure: Some(GroupError::WorkspaceCreate),
                phase: Phase::Done,
                ..s
            },
            (Phase::Decoding, Event::DecodeFinished { results }) => {
                if results.len() != s.inputs.len() {
                    s
                } else if all_ok(results@) {
                    GroupRun { phase: Phase::Running { stage: Stage::CreateProject }, ..s }
                } else {
                    let i = first_err(results@);
                    GroupRun {
                        failure: Some(
                            GroupError::Decode { index: i as usize, error: results@[i]->Err_0 },
                        ),
                        phase: Phase::Cleanup,
                        ..s
                    }
                }
            },
            (Phase::Running { stage }, Event::ToolExited { code }) => {
                if code == 0 {
                    match stage_after(stage) {
                        Some(next) => GroupRun { phase: Phase::Running { stage: next }, ..s },
                        None => GroupRun { phase: Phase::Relocating, ..s },
                    }
                } else {
                    GroupRun {
                        failure: Some(GroupError::ToolStatus { stage, code }),
                        phase: Phase::Cleanup,
                        ..s
                    }
                }
            },
            (Phase::Running { stage }, Event::ToolSpawnFailed) => GroupRun {
                failure: Some(GroupError::ToolSpawn { stage }),
                phase: Phase::Cleanup,
                ..s
            },
            (Phase::Relocating, Event::RelocateFinished { ok }) => {
                if ok {
                    if s.delete_sources {
                        GroupRun { phase: Phase::DeletingSources { next: 0 }, ..s }
                    } else {
                        GroupRun { phase: Phase::Cleanup, ..s }
                    }
                } else {
                    GroupRun { failure: Some(GroupError::Relocate), phase: Phase::Cleanup, ..s }
                }
            },
            (Phase::DeletingSources { next }, Event::DeleteFinished { ok }) => {
                let failure = if !ok && s.failure is None {
                    Some(GroupError::SourceDelete { index: next })
                } else {
                    s.failure
                };
                if next + 1 == s.inputs.len() {
                    GroupRun { failure, phase: Phase::Cleanup, ..s }
                } else {
                    GroupRun {
                        failure,
                        phase: Phase::DeletingSources { next: (next + 1) as usize },
                        ..s
                    }
                }
            },
            (Phase::Cleanup, Event::RemoveFinished { ok }) => {
                let failure = if !ok && s.failure is None {
                    Some(GroupError::WorkspaceRemove)
                } else {
                    s.failure
                };
                GroupRun { workspace: None, failure, phase: Phase::Done, ..s }
            },
            (_, _) => s,
        }
    }

    /// Record the outcome of the pending action and move to the next
    /// phase, exactly as `step` says.
    pub fn apply(&mut self, e: Event)
        requires
            old(self).wf(),
        ensures
            *final(self) == GroupRun::step(*old(self), e),
            final(self).wf(),
    {
        let ph = self.phase;
        match (ph, e) {
            (Phase::NeedWorkspace, Event::WorkspaceReady { path }) => {
                self.workspace = Some(path);
                self.phase = Phase::Decoding;
            },
            (Phase::NeedWorkspace, Event::WorkspaceFailed) => {
                self.failure = Some(GroupError::WorkspaceCreate);
                self.phase = Phase::Done;
            },
            (Phase::Decoding, Event::DecodeFinished { results }) => {
                let mut results = results;
                if results.len() == self.inputs.len() {
                    let n = results.len();
                    let mut i: usize = 0;
                    while i < n && results[i].is_ok()
                        invariant
                            i <= n == results.len(),
                            forall|j: int| 0 <= j < i ==> !((#[trigger] results@[j]) is Err),
                        decreases n - i,
                    {
                        i = i + 1;
                    }
                    if i == n {
                        self.phase = Phase::Running { stage: Stage::CreateProject };
                    } else {
                        proof {
                            lemma_first_err_at(results@, i as int);
                        }
                        let r = results.remove(i);
                        match r {
                            Err(error) => {
                                self.failure = Some(GroupError::Decode { index: i, error });
                                self.phase = Phase::Cleanup;
                            },
                            Ok(_) => unreached(),
                        }
                    }
                }
            },
            (Phase::Running { stage }, Event::ToolExited { code }) => {
                if code == 0 {
                    self.phase = match stage {
                        Stage::CreateProject => Phase::Running {
                            stage: Stage::FindControlPoints,
                        },
                        Stage::FindControlPoints => Phase::Running {
                            stage: Stage::CleanControlPoints,
                        },
                        Stage::CleanControlPoints => Phase::Running { stage: Stage::FindLines },
                        Stage::FindLines => Phase::Running { stage: Stage::Optimize },
                        Stage::Optimize => Phase::Running { stage: Stage::Modify },
                        Stage::Modify => Phase::Running { stage: Stage::Stitch },
                        Stage::Stitch => Phase::Relocating,
                    };
                } else {
                    self.failure = Some(GroupError::ToolStatus { stage, code });
                    self.phase = Phase::Cleanup;
                }
            },
            (Phase::Running { stage }, Event::ToolSpawnFailed) => {
                self.failure = Some(GroupError::ToolSpawn { stage });
                self.phase = Phase::Cleanup;
            },
            (Phase::Relocating, Event::RelocateFinished { ok }) => {
                if ok {
                    if self.delete_sources {
                        self.phase = Phase::DeletingSources { next: 0 };
                    } else {
                        self.phase = Phase::Cleanup;
                    }
                } else {
                    self.failure = Some(GroupError::Relocate);
                    self.phase = Phase::Cleanup;
                }
            },
            (Phase::DeletingSources { next }, Event::DeleteFinished { ok }) => {
                if !ok && self.failure.is_none() {
                    self.failure = Some(GroupError::SourceDelete { index: next });
                }
                if next + 1 == self.inputs.len() {
                    self.phase = Phase::Cleanup;
                } else {
                    self.phase = Phase::DeletingSources { next: next + 1 };
                }
            },
            (Phase::Cleanup, Event::RemoveFinished { ok }) => {
                if !ok && self.failure.is_none() {
                    self.failure = Some(GroupError::WorkspaceRemove);
                }
                self.workspace = None;
                self.phase = Phase::Done;
            },
            (_, _) => {},
        }
    }
}

/// A run's configuration is rejected before any work starts.
#[derive(PartialEq, Eq, Structural, Clone, Copy, Debug)]
pub enum ConfigError {
    /// The input list is empty.
    NoInputs,
    /// The requested group size is zero.
    InvalidGroupSize,
}

/// The group size a run uses: the requested one, or the whole input list
/// as a single group when none was requested. Rejects an empty input
/// list and a requested size of zero.
pub fn effective_group_size(group_by: Option<usize>, input_count: usize) -> (r: Result<
    usize,
    ConfigError,
>)
    ensures
        input_count == 0 ==> r == Result::<usize, ConfigError>::Err(ConfigError::NoInputs),
        input_count >= 1 && group_by is Some && group_by->Some_0 >= 1 ==> r == Result::<
            usize,
            ConfigError,
        >::Ok(group_by->Some_0),
        input_count >= 1 && group_by == Some(0usize) ==> r == Result::<usize, ConfigError>::Err(
            ConfigError::InvalidGroupSize,
        ),
        input_count >= 1 && group_by is None ==> r == Result::<usize, ConfigError>::Ok(
            input_count,
        ),
        r matches Ok(k) ==> k >= 1,
{
    if input_count == 0 {
        return Err(ConfigError::NoInputs);
    }
    match group_by {
        Some(k) => {
            if k == 0 {
                Err(ConfigError::InvalidGroupSize)
            } else {
                Ok(k)
            }
        },
        None => Ok(input_count),
    }
}

/// The model of an action: the same shape, at the level of character
/// sequences, for stating what `next_action` returns.
pub enum ActionModel {
    CreateWorkspace,
    DecodeAll { inputs: Seq<Seq<char>>, artifacts: Seq<Seq<char>> },
    RunTool { stage: Stage, program: Seq<char>, working_dir: Seq<char>, args: Seq<Seq<char>> },
    Relocate { from: Seq<char>, to: Seq<char> },
    DeleteSource { index: int, path: Seq<char> },
    RemoveWorkspace { path: Seq<char> },
    Finish { failed: bool },
}

/// The model of a concrete action.
pub open spec fn action_model(a: Action) -> ActionModel {
    match a {
        Action::CreateWorkspace => ActionModel::CreateWorkspace,
        Action::DecodeAll { inputs, artifacts } => ActionModel::DecodeAll {
            inputs: inputs.deep_view(),
            artifacts: artifacts.deep_view(),
        },
        Action::RunTool { stage, command } => ActionModel::RunTool {
            stage,
            program: command.program@,
            working_dir: command.working_dir@,
            args: command.args.deep_view(),
        },
        Action::Relocate { from, to } => ActionModel::Relocate { from: from@, to: to@ },
        Action::DeleteSource { index, path } => ActionModel::DeleteSource {
            index: index as int,
            path: path@,
        },
        Action::RemoveWorkspace { path } => ActionModel::RemoveWorkspace { path: path@ },
        Action::Finish { failed } => ActionModel::Finish { failed },
    }
}

/// The actions a run asks for from state `s` when the shell reports the
/// outcomes in `events`, in order: the pending action of each state the
/// run passes through.
pub open spec fn run_model(s: GroupRun, events: Seq<Event>) -> Seq<ActionModel>
    decreases events.len(),
{
    if events.len() == 0 {
        seq![GroupRun::next_action_model(s)]
    } else {
        seq![GroupRun::next_action_model(s)] + run_model(
            GroupRun::step(s, events.first()),
            events.drop_first(),
        )
    }
}

/// Two runs given the same inputs, the same flags, the same output path
/// and the same observed outcomes ask for the same actions — the same
/// stage sequence and the same argument lists — in the same order. The
/// run is a function of its start state and its events; nothing else
/// enters it. (Repeated real runs still differ in their caller-chosen,
/// timestamp-derived output path.)
pub proof fn lemma_deterministic(a: GroupRun, b: GroupRun, events: Seq<Event>)
    requires
        a == b,
    ensures
        run_model(a, events) == run_model(b, events),
{
}

/// A run reaches its end only without a workspace: either the workspace
/// could never be created, or its removal was the last action performed.
/// No path through the machine leaks the temporary directory.
pub proof fn lemma_workspace_released(s: GroupRun, e: Event)
    requires
        s.wf(),
        !(s.phase is Done),
        GroupRun::step(s, e).phase is Done,
    ensures
        GroupRun::step(s, e).workspace is None,
        (s.phase is NeedWorkspace && s.workspace is None && e is WorkspaceFailed) || (
        s.phase is Cleanup && e matches Event::RemoveFinished { .. }),
{
}

/// The project-creation stage is reached only from the decode phase, and
/// only when the shell has reported one successful decode per input: all
/// artifacts exist before the project file is initialized.
pub proof fn lemma_all_decoded_before_project(s: GroupRun, e: Event)
    requires
        s.wf(),
        s.phase != (Phase::Running { stage: Stage::CreateProject }),
        GroupRun::step(s, e).phase == (Phase::Running { stage: Stage::CreateProject }),
    ensures
        s.phase is Decoding,
        e matches Event::DecodeFinished { results } && results.len() == s.inputs.len() && all_ok(
            results@,
        ),
{
}

/// The decode fan-out pairs each of the group's `n` inputs with exactly
/// one artifact path, in input order.
pub proof fn lemma_one_artifact_per_input(s: GroupRun)
    requires
        s.wf(),
        s.phase is Decoding,
    ensures
        GroupRun::next_action_model(s) matches ActionModel::DecodeAll { inputs, artifacts }
            && inputs == s.inputs.deep_view() && artifacts.len() == s.inputs.len(),
{
}

/// Tool stages run strictly in their fixed order: the machine moves from
/// one stage to a different one only to the immediate successor, and
/// only once the current stage's process has exited with status 0.
pub proof fn lemma_stage_order(s: GroupRun, e: Event, st: Stage, st2: Stage)
    requires
        s.wf(),
        s.phase == (Phase::Running { stage: st }),
        GroupRun::step(s, e).phase == (Phase::Running { stage: st2 }),
        st2 != st,
    ensures
        stage_after(st) == Some(st2),
        e == (Event::ToolExited { code: 0 }),
{
}

/// The output is relocated only once the stitch stage's process has
/// exited with status 0.
pub proof fn lemma_stitch_before_relocate(s: GroupRun, e: Event)
    requires
        s.wf(),
        !(s.phase is Relocating),
        GroupRun::step(s, e).phase is Relocating,
    ensures
        s.phase == (Phase::Running { stage: Stage::Stitch }),
        e == (Event::ToolExited { code: 0 }),
{
}

/// How far a run has come, on a single forward scale: each tool stage
/// sits between the decode phase and the relocation.
pub open spec fn progress(s: GroupRun) -> int {
    match s.phase {
        Phase::NeedWorkspace => 0,
        Phase::Decoding => 1,
        Phase::Running { stage } => 2 + stage_index(stage),
        Phase::Relocating => 9,
        Phase::DeletingSources { .. } => 10,
        Phase::Cleanup => 11,
        Phase::Done => 12,
    }
}

/// A single event never moves a run backward.
pub proof fn lemma_progress_monotone(s: GroupRun, e: Event)
    requires
        s.wf(),
    ensures
        progress(GroupRun::step(s, e)) >= progress(s),
{
}

/// Every step keeps the invariant.
pub proof fn lemma_step_preserves_wf(s: GroupRun, e: Event)
    requires
        s.wf(),
    ensures
        GroupRun::step(s, e).wf(),
{
}

/// The state a run is in after the first `i` of its events.
pub open spec fn state_at(s: GroupRun, events: Seq<Event>, i: int) -> GroupRun
    decreases i,
{
    if i <= 0 {
        s
    } else {
        GroupRun::step(state_at(s, events, i - 1), events[i - 1])
    }
}

proof fn lemma_state_at_wf(s: GroupRun, events: Seq<Event>, i: int)
    requires
        s.wf(),
        0 <= i,
    ensures
        state_at(s, events, i).wf(),
    decreases i,
{
    if i > 0 {
        lemma_state_at_wf(s, events, i - 1);
        lemma_step_preserves_wf(state_at(s, events, i - 1), events[i - 1]);
    }
}

/// Over a whole run, progress is monotone: a phase once left is never
/// revisited, and in particular no tool stage is ever spawned again
/// after its process has exited — whatever events the shell reports.
pub proof fn lemma_run_never_backtracks(s: GroupRun, events: Seq<Event>, i: int, j: int)
    requires
        s.wf(),
        0 <= i <= j,
    ensures
        progress(state_at(s, events, j)) >= progress(state_at(s, events, i)),
    decreases j - i,
{
    if j > i {
        lemma_run_never_backtracks(s, events, i, j - 1);
        lemma_state_at_wf(s, events, j - 1);
        lemma_progress_monotone(state_at(s, events, j - 1), events[j - 1]);
    }
}

/// The artifact paths for `n` inputs inside workspace `ws`.
fn artifact_paths_exec(ws: &str, n: usize) -> (r: Vec<String>)
    ensures
        r.deep_view() == artifact_paths(ws@, n as int),
{
    let mut r: Vec<String> = Vec::new();
    let mut i: usize = 0;
    while i < n
        invariant
            i <= n,
            r.deep_view() =~= artifact_paths(ws@, i as int),
        decreases n - i,
    {
        let ghost pre = r.deep_view();
        let name = artifact_filename(i);
        let p = path_join(ws, name.as_str());
        r.push(p);
        proof {
            assert(r.deep_view() =~= pre.push(path_chars(ws@, artifact_name_chars(i as int))));
            assert(r.deep_view() =~= artifact_paths(ws@, i as int + 1));
        }
        i = i + 1;
    }
    proof {
        assert(r.deep_view() =~= artifact_paths(ws@, n as int));
    }
    r
}

} // verus!
