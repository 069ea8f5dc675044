use delivery_cli::error::Kind;
use delivery_cli::job::{
    job_configure_messages, job_merge_intro, job_next, plan_next, JobAction, job_change, job_clone_source, job_merge_messages, job_run_plan, job_start_messages,
    job_workspace_messages, local_head_branch, patchset_branch, patchset_or_latest, CloneSource,
    JobStep, PatchsetBranch, Privilege,
};
use delivery_cli::message::{Color, Message};
use delivery_cli::paths::{job_root_path, join_many, join_path, setup_config_path, JobCoordinates};

fn coords() -> JobCoordinates {
    JobCoordinates {
        server: "srv".to_string(),
        enterprise: "ent".to_string(),
        organization: "org".to_string(),
        project: "proj".to_string(),
        pipeline: "master".to_string(),
        stage: "verify".to_string(),
        phase: "unit".to_string(),
    }
}

fn texts(v: &[Message]) -> Vec<(Color, String, bool)> {
    v.iter().map(|m| (m.color, m.text.clone(), m.newline)).collect()
}

#[test]
fn join_adds_separator() {
    assert_eq!(join_path("a", "b"), "a/b");
    assert_eq!(join_path("a/", "b"), "a/b");
    assert_eq!(join_path("", "b"), "b");
    assert_eq!(join_path("a", ""), "a/");
}

#[test]
fn join_absolute_replaces() {
    assert_eq!(join_path("/home/me", "/etc"), "/etc");
    let comps = vec!["x".to_string(), "/y".to_string(), "z".to_string()];
    assert_eq!(join_many("base", &comps), "/y/z");
}

#[test]
fn job_root_given_is_kept() {
    assert_eq!(job_root_path("/tmp/jobs", true, None, &coords()).unwrap(), "/tmp/jobs");
}

#[test]
fn job_root_privileged() {
    assert_eq!(
        job_root_path("", true, Some("/home/me"), &coords()).unwrap(),
        "/var/opt/delivery/workspace/srv/ent/org/proj/master/verify/unit"
    );
}

#[test]
fn job_root_in_home() {
    assert_eq!(
        job_root_path("", false, Some("/home/me"), &coords()).unwrap(),
        "/home/me/.delivery/srv/ent/org/proj/master/verify/unit"
    );
}

#[test]
fn job_root_without_home() {
    let e = job_root_path("", false, None, &coords()).unwrap_err();
    assert_eq!(e.kind, Kind::NoHomedir);
}

#[test]
fn setup_path_defaults_to_cwd() {
    assert_eq!(setup_config_path("", "/work"), "/work");
    assert_eq!(setup_config_path("/cfg", "/work"), "/cfg");
}

#[test]
fn patchset_defaults_to_latest() {
    assert_eq!(patchset_or_latest(""), "latest");
    assert_eq!(patchset_or_latest("3"), "3");
}

fn named(b: PatchsetBranch) -> (String, String) {
    match b {
        PatchsetBranch::Named { branch, shown } => (branch, shown),
        PatchsetBranch::LocalHead => panic!("expected a named branch"),
    }
}

#[test]
fn branch_option_wins() {
    let b = named(patchset_branch("feature", "chg", "abc", "master", "latest"));
    assert_eq!(b, ("feature".to_string(), " feature".to_string()));
}

#[test]
fn change_gives_review_ref() {
    let b = named(patchset_branch("", "chg", "abc", "master", "2"));
    assert_eq!(b, ("_reviews/master/chg/2".to_string(), " chg".to_string()));
}

#[test]
fn sha_gives_empty_branch() {
    let b = named(patchset_branch("", "", "abc", "master", "latest"));
    assert_eq!(b, (String::new(), " abc".to_string()));
}

#[test]
fn nothing_gives_local_head() {
    assert!(matches!(patchset_branch("", "", "", "master", "latest"), PatchsetBranch::LocalHead));
    assert_eq!(named(local_head_branch("topic")), ("topic".to_string(), " topic".to_string()));
}

#[test]
fn clone_sources() {
    assert!(matches!(job_clone_source("ssh://x", true), CloneSource::Given(ref u) if u == "ssh://x"));
    assert!(matches!(job_clone_source("", true), CloneSource::WorkingDirectory));
    assert!(matches!(job_clone_source("", false), CloneSource::DeliveryServer));
}

#[test]
fn change_record_copies_fields() {
    let c = job_change(&coords(), "url", "sha1", "br", "id9", "latest");
    assert_eq!(c.enterprise, "ent");
    assert_eq!(c.organization, "org");
    assert_eq!(c.project, "proj");
    assert_eq!(c.pipeline, "master");
    assert_eq!(c.stage, "verify");
    assert_eq!(c.phase, "unit");
    assert_eq!(c.git_url, "url");
    assert_eq!(c.sha, "sha1");
    assert_eq!(c.patchset_branch, "br");
    assert_eq!(c.change_id, "id9");
    assert_eq!(c.patchset_number, "latest");
}

fn runs(plan: &[JobStep]) -> Vec<(String, Privilege)> {
    plan.iter()
        .filter_map(|s| match s {
            JobStep::Run { phase, privilege } => Some((phase.clone(), *privilege)),
            JobStep::Say(_) => None,
        })
        .collect()
}

#[test]
fn privileged_plan_drops_for_phase_only() {
    let plan = job_run_plan(true, "unit");
    assert_eq!(
        runs(&plan),
        vec![("default".to_string(), Privilege::NoDrop), ("unit".to_string(), Privilege::Drop)]
    );
    assert_eq!(plan.len(), 5);
    match &plan[3] {
        JobStep::Say(m) => assert_eq!(m.text, "Running phase unit"),
        _ => panic!("expected a message"),
    }
}

#[test]
fn unprivileged_plan_runs_phase_as_is() {
    let plan = job_run_plan(false, "lint");
    assert_eq!(runs(&plan), vec![("lint".to_string(), Privilege::NoDrop)]);
    assert_eq!(plan.len(), 2);
}

#[test]
fn job_messages() {
    assert_eq!(
        texts(&job_start_messages("proj", "verify", "unit")),
        vec![
            (Color::White, "Starting job for ".to_string(), false),
            (Color::Green, "proj".to_string(), false),
            (Color::Yellow, " verify".to_string(), false),
            (Color::Magenta, " unit".to_string(), true),
        ]
    );
    assert_eq!(
        texts(&job_workspace_messages("/w")),
        vec![(Color::White, "Creating workspace in /w".to_string(), true)]
    );
    assert_eq!(
        texts(&job_merge_messages(" chg", "master")),
        vec![
            (Color::Yellow, " chg".to_string(), false),
            (Color::White, " to ".to_string(), false),
            (Color::Magenta, "master".to_string(), true),
        ]
    );
}

#[test]
fn job_intro_and_configure_messages() {
    assert_eq!(
        texts(&job_merge_intro()),
        vec![(Color::White, "Cloning repository, and merging".to_string(), false)]
    );
    assert_eq!(
        texts(&job_configure_messages()),
        vec![(Color::White, "Configuring the job".to_string(), true)]
    );
}

fn run_job(local: bool, fail_at: Option<JobAction>) -> Vec<JobAction> {
    let mut seq = vec![];
    let mut last = None;
    let mut failed = false;
    loop {
        let a = job_next(local, last, failed);
        seq.push(a);
        if a == JobAction::Done {
            break;
        }
        failed = fail_at == Some(a);
        last = Some(a);
    }
    seq
}

#[test]
fn job_steps_in_order() {
    assert_eq!(
        run_job(false, None),
        vec![JobAction::BuildWorkspace, JobAction::SetupRepository, JobAction::ConfigureJob, JobAction::RunJob, JobAction::Done]
    );
    assert_eq!(
        run_job(true, None),
        vec![JobAction::BuildWorkspace, JobAction::ReadLocalHead, JobAction::SetupRepository, JobAction::ConfigureJob, JobAction::RunJob, JobAction::Done]
    );
}

#[test]
fn job_stops_after_failure() {
    assert_eq!(
        run_job(true, Some(JobAction::ReadLocalHead)),
        vec![JobAction::BuildWorkspace, JobAction::ReadLocalHead, JobAction::Done]
    );
}

fn run_plan(len: usize, fail_at: Option<usize>) -> Vec<usize> {
    let mut ran = vec![];
    let mut last = None;
    let mut failed = false;
    while let Some(i) = plan_next(len, last, failed) {
        ran.push(i);
        failed = fail_at == Some(i);
        last = Some(i);
    }
    ran
}

#[test]
fn plan_runs_all_steps() {
    assert_eq!(run_plan(5, None), vec![0, 1, 2, 3, 4]);
    assert_eq!(run_plan(0, None), Vec::<usize>::new());
}

#[test]
fn failed_builder_stops_the_phase() {
    let plan = job_run_plan(true, "unit");
    assert!(matches!(&plan[2], JobStep::Run { phase, privilege: Privilege::NoDrop } if phase == "default"));
    assert_eq!(run_plan(plan.len(), Some(2)), vec![0, 1, 2]);
    assert_eq!(plan_next(5, Some(7), false), None);
}
