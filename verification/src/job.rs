use vstd::prelude::*;
use vstd::string::*;

use crate::message::{
    concat2, push_message, push_say, push_sayln, say, sayln, views, Color, Message, MessageView,
};
use crate::paths::JobCoordinates;

verus! {

/// The patchset a job merges: the given one, `"latest"` when none was given.
pub open spec fn patch_spec(patchset: Seq<char>) -> Seq<char> {
    if patchset.len() == 0 {
        "latest"@
    } else {
        patchset
    }
}

/// The patchset that `delivery job` merges (see `patch_spec`).
pub fn patchset_or_latest(patchset: &str) -> (res: String)
    ensures
        res@ == patch_spec(patchset@),
        patchset@.len() > 0 ==> res@ == patchset@,
        patchset@.len() == 0 ==> res@ == "latest"@,
{
    if patchset.is_empty() {
        String::from_str("latest")
    } else {
        String::from_str(patchset)
    }
}

/// The branch that a job's repository is set up for.
#[derive(Debug, Clone)]
pub enum PatchsetBranch {
    /// A branch known from the command line; `shown` is what the client
    /// prints for it.
    Named { branch: String, shown: String },
    /// The current branch of the local repository, whose name git gives.
    LocalHead,
}

/// The ref under which the server keeps patchset `patch` of `change` for
/// `pipeline`.
pub open spec fn review_ref(pipeline: Seq<char>, change: Seq<char>, patch: Seq<char>) -> Seq<char> {
    "_reviews/"@ + pipeline + "/"@ + change + "/"@ + patch
}

/// The branch of a job: the `branch` option when given; else the review ref
/// of `change` when a change is given; else the empty branch when a sha is
/// given (the sha is checked out); else the local head.
pub open spec fn patchset_branch_spec(
    branch: Seq<char>,
    change: Seq<char>,
    shasum: Seq<char>,
    pipeline: Seq<char>,
    patch: Seq<char>,
) -> Option<(Seq<char>, Seq<char>)> {
    if branch.len() > 0 {
        Some((branch, " "@ + branch))
    } else if change.len() > 0 {
        Some((review_ref(pipeline, change, patch), " "@ + change))
    } else if shasum.len() > 0 {
        Some((Seq::empty(), " "@ + shasum))
    } else {
        None
    }
}

/// The branch of a job as plain values: `None` for the local head.
pub open spec fn patchset_branch_view(b: PatchsetBranch) -> Option<(Seq<char>, Seq<char>)> {
    match b {
        PatchsetBranch::Named { branch, shown } => Some((branch@, shown@)),
        PatchsetBranch::LocalHead => None,
    }
}

/// The branch that `delivery job` sets the repository up for (see
/// `patchset_branch_spec`).
pub fn patchset_branch(
    branch: &str,
    change: &str,
    shasum: &str,
    pipeline: &str,
    patch: &str,
) -> (res: PatchsetBranch)
    ensures
        patchset_branch_view(res) == patchset_branch_spec(
            branch@,
            change@,
            shasum@,
            pipeline@,
            patch@,
        ),
{
    if !branch.is_empty() {
        PatchsetBranch::Named { branch: String::from_str(branch), shown: concat2(" ", branch) }
    } else if !change.is_empty() {
        let mut r = concat2("_reviews/", pipeline);
        r.append("/");
        r.append(change);
        r.append("/");
        r.append(patch);
        PatchsetBranch::Named { branch: r, shown: concat2(" ", change) }
    } else if !shasum.is_empty() {
        PatchsetBranch::Named { branch: String::new(), shown: concat2(" ", shasum) }
    } else {
        PatchsetBranch::LocalHead
    }
}

/// Where a job clones its repository from.
#[derive(Debug, Clone)]
pub enum CloneSource {
    /// The URL given on the command line.
    Given(String),
    /// The working directory, when the job runs on the local head.
    WorkingDirectory,
    /// The project's git URL on the Delivery server.
    DeliveryServer,
}

/// The clone source of a job: the given URL when there is one; otherwise the
/// working directory for a job on the local head, the Delivery server else.
pub open spec fn clone_source_spec(git_url: Seq<char>, local: bool) -> (int, Seq<char>) {
    if git_url.len() > 0 {
        (0, git_url)
    } else if local {
        (1, Seq::empty())
    } else {
        (2, Seq::empty())
    }
}

/// A clone source as plain values: its variant's number and its URL.
pub open spec fn clone_source_view(c: CloneSource) -> (int, Seq<char>) {
    match c {
        CloneSource::Given(u) => (0, u@),
        CloneSource::WorkingDirectory => (1, Seq::empty()),
        CloneSource::DeliveryServer => (2, Seq::empty()),
    }
}

/// Where `delivery job` clones from (see `clone_source_spec`).
pub fn job_clone_source(git_url: &str, local: bool) -> (res: CloneSource)
    ensures
        clone_source_view(res) == clone_source_spec(git_url@, local),
{
    if !git_url.is_empty() {
        CloneSource::Given(String::from_str(git_url))
    } else if local {
        CloneSource::WorkingDirectory
    } else {
        CloneSource::DeliveryServer
    }
}

/// The change a job works on, as the job's configuration records it.
#[derive(Debug, Clone)]
pub struct JobChange {
    pub enterprise: String,
    pub organization: String,
    pub project: String,
    pub pipeline: String,
    pub stage: String,
    pub phase: String,
    pub git_url: String,
    pub sha: String,
    pub patchset_branch: String,
    pub change_id: String,
    pub patchset_number: String,
}

/// The change record of a job at `coords`, cloned from `git_url`, at `sha`,
/// on `patchset_branch`, for change `change_id` at patchset `patch`.
pub fn job_change(
    coords: &JobCoordinates,
    git_url: &str,
    sha: &str,
    patchset_branch: &str,
    change_id: &str,
    patch: &str,
) -> (res: JobChange)
    ensures
        res.enterprise@ == coords.enterprise@,
        res.organization@ == coords.organization@,
        res.project@ == coords.project@,
        res.pipeline@ == coords.pipeline@,
        res.stage@ == coords.stage@,
        res.phase@ == coords.phase@,
        res.git_url@ == git_url@,
        res.sha@ == sha@,
        res.patchset_branch@ == patchset_branch@,
        res.change_id@ == change_id@,
        res.patchset_number@ == patch@,
{
    JobChange {
        enterprise: coords.enterprise.clone(),
        organization: coords.organization.clone(),
        project: coords.project.clone(),
        pipeline: coords.pipeline.clone(),
        stage: coords.stage.clone(),
        phase: coords.phase.clone(),
        git_url: String::from_str(git_url),
        sha: String::from_str(sha),
        patchset_branch: String::from_str(patchset_branch),
        change_id: String::from_str(change_id),
        patchset_number: String::from_str(patch),
    }
}

/// Whether a job phase runs with the privileges of the process or with
/// dropped ones.
#[derive(Debug, Clone, Copy, PartialEq, Eq, Structural)]
pub enum Privilege {
    Drop,
    NoDrop,
}

/// One step of running a job: print a message, or run a phase.
#[derive(Debug, Clone)]
pub enum JobStep {
    Say(Message),
    Run { phase: String, privilege: Privilege },
}

/// A job step as plain values.
pub enum JobStepView {
    Say(MessageView),
    Run(Seq<char>, Privilege),
}

impl View for JobStep {
    type V = JobStepView;

    open spec fn view(&self) -> JobStepView {
        match self {
            JobStep::Say(m) => JobStepView::Say(m@),
            JobStep::Run { phase, privilege } => JobStepView::Run(phase@, *privilege),
        }
    }
}

/// The views of a sequence of job steps.
pub open spec fn step_views(steps: Seq<JobStep>) -> Seq<JobStepView> {
    steps.map_values(|s: JobStep| s@)
}

/// How a job runs once it is configured. As root, the builder is set up by
/// the `default` recipe with full privileges, then the phase runs with
/// dropped privileges; otherwise the phase runs as the current user.
pub open spec fn run_plan_spec(privileged: bool, phase: Seq<char>) -> Seq<JobStepView> {
    if privileged {
        seq![
            JobStepView::Say(sayln(Color::White, "Running the job"@)),
            JobStepView::Say(sayln(Color::Yellow, "Setting up the builder"@)),
            JobStepView::Run("default"@, Privilege::NoDrop),
            JobStepView::Say(sayln(Color::Magenta, "Running phase "@ + phase)),
            JobStepView::Run(phase, Privilege::Drop),
        ]
    } else {
        seq![
            JobStepView::Say(sayln(Color::White, "Running the job"@)),
            JobStepView::Run(phase, Privilege::NoDrop),
        ]
    }
}

fn push_step(steps: &mut Vec<JobStep>, step: JobStep)
    ensures
        step_views(final(steps)@) == step_views(old(steps)@).push(step@),
{
    let ghost before = steps@;
    steps.push(step);
    assert(step_views(steps@) =~= step_views(before).push(step@));
}

fn line(color: Color, text: String) -> (res: JobStep)
    ensures
        res@ == JobStepView::Say(sayln(color, text@)),
{
    JobStep::Say(Message { color, text, newline: true })
}

/// The steps that run a job's `phase` (see `run_plan_spec`).
pub fn job_run_plan(privileged: bool, phase: &str) -> (res: Vec<JobStep>)
    ensures
        step_views(res@) == run_plan_spec(privileged, phase@),
{
    let mut steps: Vec<JobStep> = Vec::new();
    push_step(&mut steps, line(Color::White, String::from_str("Running the job")));
    if privileged {
        push_step(&mut steps, line(Color::Yellow, String::from_str("Setting up the builder")));
        push_step(
            &mut steps,
            JobStep::Run { phase: String::from_str("default"), privilege: Privilege::NoDrop },
        );
        push_step(&mut steps, line(Color::Magenta, concat2("Running phase ", phase)));
        push_step(
            &mut steps,
            JobStep::Run { phase: String::from_str(phase), privilege: Privilege::Drop },
        );
    } else {
        push_step(
            &mut steps,
            JobStep::Run { phase: String::from_str(phase), privilege: Privilege::NoDrop },
        );
    }
    assert(step_views(steps@) =~= run_plan_spec(privileged, phase@));
    steps
}

/// What `delivery job` prints when it starts a job.
pub open spec fn job_start_view(project: Seq<char>, stage: Seq<char>, phase: Seq<char>) -> Seq<
    MessageView,
> {
    seq![
        say(Color::White, "Starting job for "@),
        say(Color::Green, project),
        say(Color::Yellow, " "@ + stage),
        sayln(Color::Magenta, " "@ + phase),
    ]
}

/// The messages that announce a job of `project` in `stage` and `phase`.
pub fn job_start_messages(project: &str, stage: &str, phase: &str) -> (res: Vec<Message>)
    ensures
        views(res@) == job_start_view(project@, stage@, phase@),
{
    let mut out: Vec<Message> = Vec::new();
    push_say(&mut out, Color::White, "Starting job for ");
    push_say(&mut out, Color::Green, project);
    push_message(&mut out, Color::Yellow, concat2(" ", stage), false);
    push_message(&mut out, Color::Magenta, concat2(" ", phase), true);
    assert(views(out@) =~= job_start_view(project@, stage@, phase@));
    out
}

/// What `delivery job` prints before it builds the workspace at `root`, and
/// when it starts to clone and merge.
pub open spec fn job_workspace_view(root: Seq<char>) -> Seq<MessageView> {
    seq![
        sayln(Color::White, "Creating workspace in "@ + root),
    ]
}

/// The message that names the workspace of a job.
pub fn job_workspace_messages(root: &str) -> (res: Vec<Message>)
    ensures
        views(res@) == job_workspace_view(root@),
{
    let mut out: Vec<Message> = Vec::new();
    push_message(&mut out, Color::White, concat2("Creating workspace in ", root), true);
    assert(views(out@) =~= job_workspace_view(root@));
    out
}

/// What `delivery job` prints once the branch is known: `shown` (the branch
/// as printed, with its leading space) and the `pipeline` it is merged into.
pub open spec fn job_merge_view(shown: Seq<char>, pipeline: Seq<char>) -> Seq<MessageView> {
    seq![
        say(Color::Yellow, shown),
        say(Color::White, " to "@),
        sayln(Color::Magenta, pipeline),
    ]
}

/// The messages that name the branch `shown` and the `pipeline` it is merged into.
pub fn job_merge_messages(shown: &str, pipeline: &str) -> (res: Vec<Message>)
    ensures
        views(res@) == job_merge_view(shown@, pipeline@),
{
    let mut out: Vec<Message> = Vec::new();
    push_say(&mut out, Color::Yellow, shown);
    push_say(&mut out, Color::White, " to ");
    push_sayln(&mut out, Color::Magenta, pipeline);
    assert(views(out@) =~= job_merge_view(shown@, pipeline@));
    out
}

} // verus!

verus! {

/// The phases a run plan runs, with their privileges.
pub open spec fn runs_of(plan: Seq<JobStepView>) -> Seq<(Seq<char>, Privilege)> {
    plan.filter(|s: JobStepView| s is Run).map_values(
        |s: JobStepView|
            match s {
                JobStepView::Run(p, v) => (p, v),
                JobStepView::Say(_) => (Seq::empty(), Privilege::NoDrop),
            },
    )
}

/// Privileges are dropped only by a privileged process, and then only for
/// the job's own phase, after the builder was set up with full privileges
/// by `default`; an unprivileged process runs just the phase, as itself.
pub proof fn lemma_privileges_dropped_only_for_phase(privileged: bool, phase: Seq<char>)
    ensures
        privileged ==> runs_of(run_plan_spec(privileged, phase)) == seq![
            ("default"@, Privilege::NoDrop),
            (phase, Privilege::Drop),
        ],
        !privileged ==> runs_of(run_plan_spec(privileged, phase)) == seq![
            (phase, Privilege::NoDrop),
        ],
{
    reveal_with_fuel(Seq::filter, 6);
    let plan = run_plan_spec(privileged, phase);
    let f = |s: JobStepView| s is Run;
    if privileged {
        assert(plan.filter(f) =~= seq![
            JobStepView::Run("default"@, Privilege::NoDrop),
            JobStepView::Run(phase, Privilege::Drop),
        ]);
    } else {
        assert(plan.filter(f) =~= seq![JobStepView::Run(phase, Privilege::NoDrop)]);
    }
}

/// A patchset given on the command line is merged exactly as given; only
/// when none is given does a job merge the latest one. The review ref of a
/// change ends with that very patchset.
pub proof fn lemma_given_patchset_is_used(pipeline: Seq<char>, change: Seq<char>, patchset: Seq<char>)
    ensures
        patchset.len() > 0 ==> patch_spec(patchset) == patchset,
        patchset.len() == 0 ==> patch_spec(patchset) == "latest"@,
        ({
            let r = review_ref(pipeline, change, patch_spec(patchset));
            patchset.len() > 0 ==> r.subrange(r.len() - patchset.len(), r.len() as int) == patchset
        }),
{
    if patchset.len() > 0 {
        let r = review_ref(pipeline, change, patchset);
        let pre = "_reviews/"@ + pipeline + "/"@ + change + "/"@;
        assert(r == pre + patchset);
        assert(r.subrange(r.len() - patchset.len(), r.len() as int) =~= patchset);
    }
}

/// The branch of a job on the local head named `head`, and how it is shown.
pub fn local_head_branch(head: &str) -> (res: PatchsetBranch)
    ensures
        patchset_branch_view(res) == Some((head@, " "@ + head@)),
{
    PatchsetBranch::Named { branch: String::from_str(head), shown: concat2(" ", head) }
}

} // verus!

verus! {

/// The steps of `delivery job` that touch the outside world, in the order in
/// which they run.
#[derive(Debug, Clone, Copy, PartialEq, Eq, Structural)]
pub enum JobAction {
    /// Create the workspace under the job root.
    BuildWorkspace,
    /// Ask git for the current branch, for a job on the local head.
    ReadLocalHead,
    /// Clone the repository and merge the job's branch into the pipeline.
    SetupRepository,
    /// Remove the old build cookbook and configure chef for the job.
    ConfigureJob,
    /// Run the steps of the run plan.
    RunJob,
    /// Nothing is left to do.
    Done,
}

/// Whether a job step ends the job: only `Done` does.
pub open spec fn job_over(a: JobAction) -> bool {
    a == JobAction::Done
}

/// The step of a job that follows `last` (`None` at the start). A failed step
/// ends the job; the local head is read only for a job on the local head.
pub open spec fn job_next_spec(local_head: bool, last: Option<JobAction>, failed: bool) -> JobAction {
    if failed {
        JobAction::Done
    } else {
        match last {
            None => JobAction::BuildWorkspace,
            Some(JobAction::BuildWorkspace) => if local_head {
                JobAction::ReadLocalHead
            } else {
                JobAction::SetupRepository
            },
            Some(JobAction::ReadLocalHead) => JobAction::SetupRepository,
            Some(JobAction::SetupRepository) => JobAction::ConfigureJob,
            Some(JobAction::ConfigureJob) => JobAction::RunJob,
            Some(JobAction::RunJob) => JobAction::Done,
            Some(JobAction::Done) => JobAction::Done,
        }
    }
}

/// The next step of `delivery job` (see `job_next_spec`); `failed` tells
/// whether `last` failed.
pub fn job_next(local_head: bool, last: Option<JobAction>, failed: bool) -> (res: JobAction)
    ensures
        res == job_next_spec(local_head, last, failed),
{
    if failed {
        return JobAction::Done;
    }
    match last {
        None => JobAction::BuildWorkspace,
        Some(JobAction::BuildWorkspace) => if local_head {
            JobAction::ReadLocalHead
        } else {
            JobAction::SetupRepository
        },
        Some(JobAction::ReadLocalHead) => JobAction::SetupRepository,
        Some(JobAction::SetupRepository) => JobAction::ConfigureJob,
        Some(JobAction::ConfigureJob) => JobAction::RunJob,
        Some(JobAction::RunJob) => JobAction::Done,
        Some(JobAction::Done) => JobAction::Done,
    }
}

/// The steps of a job in which nothing fails, ending with `Done`.
pub open spec fn job_sequence(local_head: bool) -> Seq<JobAction> {
    seq![JobAction::BuildWorkspace] + (if local_head {
        seq![JobAction::ReadLocalHead]
    } else {
        seq![]
    }) + seq![
        JobAction::SetupRepository,
        JobAction::ConfigureJob,
        JobAction::RunJob,
        JobAction::Done,
    ]
}

/// Following `job_next` from the start without failures performs the steps
/// of `job_sequence` in order: the workspace is built first, the repository
/// set up before the job is configured, and the job is run last; a failure
/// at any step ends the job at once.
pub proof fn lemma_job_follows_sequence(local_head: bool)
    ensures
        ({
            let s = job_sequence(local_head);
            &&& job_next_spec(local_head, None, false) == s[0]
            &&& forall|i: int|
                0 <= i < s.len() - 1 ==> job_next_spec(local_head, Some(#[trigger] s[i]), false)
                    == s[i + 1]
            &&& s.last() == JobAction::Done
            &&& forall|a: Option<JobAction>| #[trigger] job_next_spec(local_head, a, true)
                == JobAction::Done
        }),
{
    let s = job_sequence(local_head);
    if local_head {
        assert(s =~= seq![
            JobAction::BuildWorkspace,
            JobAction::ReadLocalHead,
            JobAction::SetupRepository,
            JobAction::ConfigureJob,
            JobAction::RunJob,
            JobAction::Done,
        ]);
    } else {
        assert(s =~= seq![
            JobAction::BuildWorkspace,
            JobAction::SetupRepository,
            JobAction::ConfigureJob,
            JobAction::RunJob,
            JobAction::Done,
        ]);
    }
}

/// What `delivery job` prints when it starts to clone and merge, before the
/// branch is known.
pub fn job_merge_intro() -> (res: Vec<Message>)
    ensures
        views(res@) == seq![say(Color::White, "Cloning repository, and merging"@)],
{
    let mut out: Vec<Message> = Vec::new();
    push_say(&mut out, Color::White, "Cloning repository, and merging");
    assert(views(out@) =~= seq![say(Color::White, "Cloning repository, and merging"@)]);
    out
}

/// What `delivery job` prints before it configures the job.
pub fn job_configure_messages() -> (res: Vec<Message>)
    ensures
        views(res@) == seq![sayln(Color::White, "Configuring the job"@)],
{
    let mut out: Vec<Message> = Vec::new();
    push_sayln(&mut out, Color::White, "Configuring the job");
    assert(views(out@) =~= seq![sayln(Color::White, "Configuring the job"@)]);
    out
}

} // verus!

verus! {

/// The view of an optional index.
pub open spec fn opt_index(i: Option<usize>) -> Option<int> {
    match i {
        Some(k) => Some(k as int),
        None => None,
    }
}

/// The step of a plan of `len` steps that runs after step `last` (`None` at
/// the start): the next one in order, none once the plan is through or a
/// step has failed.
pub open spec fn plan_next_spec(len: int, last: Option<int>, failed: bool) -> Option<int> {
    if failed {
        None
    } else {
        let next = match last {
            None => 0,
            Some(i) => i + 1,
        };
        if 0 <= next < len {
            Some(next)
        } else {
            None
        }
    }
}

/// The index of the run-plan step to perform after step `last` (see
/// `plan_next_spec`); `failed` tells whether `last` failed.
pub fn plan_next(len: usize, last: Option<usize>, failed: bool) -> (res: Option<usize>)
    ensures
        opt_index(res) == plan_next_spec(len as int, opt_index(last), failed),
{
    if failed {
        return None;
    }
    let next: usize = match last {
        None => 0,
        Some(i) => {
            if i >= len {
                return None;
            }
            i + 1
        },
    };
    if next < len {
        Some(next)
    } else {
        None
    }
}

/// The steps of a plan of `len` steps that run when step `fail_at` (if any)
/// is the first to fail: every step up to and with it, in order; all of them
/// when none fails.
pub open spec fn executed_steps(len: int, fail_at: Option<int>) -> Seq<int> {
    let count = match fail_at {
        Some(f) => if 0 <= f < len {
            f + 1
        } else {
            len
        },
        None => len,
    };
    Seq::new(if count < 0 { 0 } else { count as nat }, |i: int| i)
}

/// Following `plan_next` from the start, where step `fail_at` fails, runs
/// exactly `executed_steps`: each step after the one before it, and nothing
/// after the failed step or the last step.
pub proof fn lemma_plan_follows(len: int, fail_at: Option<int>)
    ensures
        ({
            let s = executed_steps(len, fail_at);
            &&& s.len() > 0 ==> plan_next_spec(len, None, false) == Some(s[0])
            &&& s.len() == 0 ==> plan_next_spec(len, None, false) is None
            &&& forall|i: int|
                0 <= i < s.len() - 1 ==> plan_next_spec(
                    len,
                    Some(#[trigger] s[i]),
                    fail_at == Some(s[i]),
                ) == Some(s[i + 1])
            &&& s.len() > 0 ==> plan_next_spec(len, Some(s.last()), fail_at == Some(s.last()))
                is None
        }),
{
}

/// When setting up the builder with `default` fails, the job's phase is not
/// run with dropped privileges: of the privileged plan, only the steps up to
/// the failed `default` run are performed.
pub proof fn lemma_failed_builder_stops_phase(phase: Seq<char>)
    ensures
        run_plan_spec(true, phase)[2] == JobStepView::Run("default"@, Privilege::NoDrop),
        run_plan_spec(true, phase)[4] == JobStepView::Run(phase, Privilege::Drop),
        executed_steps(run_plan_spec(true, phase).len() as int, Some(2)) =~= seq![0int, 1, 2],
        !executed_steps(run_plan_spec(true, phase).len() as int, Some(2)).contains(4),
{
    let s = executed_steps(5, Some(2));
    assert(s[0] == 0 && s[1] == 1 && s[2] == 2);
    assert(!s.contains(4)) by {
        if s.contains(4) {
            let k = choose|k: int| 0 <= k < s.len() && s[k] == 4;
            assert(s[k] == k);
        }
    }
}

} // verus!
