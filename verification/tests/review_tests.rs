use delivery_cli::api::{parse_http_method, response_is_printed, token_message, token_saved_message, HttpMethod};
use delivery_cli::cloning::{clone_intro, clone_messages, clone_url};
use delivery_cli::error::Kind;
use delivery_cli::init::{cookbook_commit_messages, init_next, init_review_request, init_step_messages, InitAction};
use delivery_cli::message::{error_messages, loading_config_messages, Color, Message};
use delivery_cli::pipeline::{pipeline_banner, pipeline_messages};
use delivery_cli::review::{
    change_edit_text, checkout_messages, diff_messages, review_branch_messages, review_intro,
    review_result_output,
};

fn texts(v: &[Message]) -> Vec<(Color, String, bool)> {
    v.iter().map(|m| (m.color, m.text.clone(), m.newline)).collect()
}

fn t(c: Color, s: &str, n: bool) -> (Color, String, bool) {
    (c, s.to_string(), n)
}

#[test]
fn review_of_target_branch_is_refused() {
    let e = review_branch_messages("master", "master").unwrap_err();
    assert_eq!(e.kind, Kind::CannotReviewSameBranch);
}

#[test]
fn review_names_branch_and_target() {
    let m = review_branch_messages("feature", "master").unwrap();
    assert_eq!(
        texts(&m),
        vec![
            t(Color::Yellow, "feature", false),
            t(Color::White, " targeted for pipeline ", false),
            t(Color::Magenta, "master", true),
        ]
    );
    assert_eq!(texts(&review_intro()), vec![t(Color::White, "Review for change ", false)]);
}

#[test]
fn checkout_latest() {
    assert_eq!(
        texts(&checkout_messages("chg", "master", "latest")),
        vec![
            t(Color::White, "Checking out ", false),
            t(Color::Yellow, "chg", false),
            t(Color::White, " targeted for pipeline ", false),
            t(Color::Magenta, "master", false),
            t(Color::White, " tracking latest changes", true),
        ]
    );
}

#[test]
fn checkout_numbered_patchset() {
    let m = texts(&checkout_messages("chg", "master", "4"));
    assert_eq!(m.len(), 6);
    assert_eq!(m[4], t(Color::White, " at patchset ", false));
    assert_eq!(m[5], t(Color::Yellow, "4", true));
}

#[test]
fn diff_messages_by_patchset() {
    let m = texts(&diff_messages("chg", "master", "latest"));
    assert_eq!(m[0], t(Color::White, "Showing diff for ", false));
    assert_eq!(m[4], t(Color::White, " latest patchset", true));
    let m = texts(&diff_messages("chg", "master", "1"));
    assert_eq!(m[4], t(Color::White, " at patchset ", false));
    assert_eq!(m[5], t(Color::Yellow, "1", true));
}

#[test]
fn edit_text_layout() {
    assert_eq!(change_edit_text("Title", "Body text"), "Title\n\nBody text\n");
}

#[test]
fn review_result_with_url() {
    let lines = vec!["remote: ok".to_string(), "done".to_string()];
    let out = review_result_output(&lines, &Some("https://x/c/1".to_string()), false);
    assert_eq!(
        texts(&out.messages),
        vec![
            t(Color::White, "remote: ok", true),
            t(Color::White, "done", true),
            t(Color::Magenta, "https://x/c/1", true),
        ]
    );
    assert_eq!(out.open, Some("https://x/c/1".to_string()));
    let out = review_result_output(&lines, &Some("https://x/c/1".to_string()), true);
    assert_eq!(out.open, None);
    assert_eq!(out.messages.len(), 3);
}

#[test]
fn review_result_without_url() {
    let out = review_result_output(&vec![], &None, false);
    assert!(out.messages.is_empty());
    assert_eq!(out.open, None);
}

#[test]
fn http_methods() {
    assert_eq!(parse_http_method("get").unwrap(), HttpMethod::Get);
    assert_eq!(parse_http_method("post").unwrap(), HttpMethod::Post);
    assert_eq!(parse_http_method("put").unwrap(), HttpMethod::Put);
    assert_eq!(parse_http_method("delete").unwrap(), HttpMethod::Delete);
    assert_eq!(parse_http_method("GET").unwrap_err().kind, Kind::UnsupportedHttpMethod);
    assert_eq!(parse_http_method("patch").unwrap_err().kind, Kind::UnsupportedHttpMethod);
    assert!(!response_is_printed(204));
    assert!(response_is_printed(200));
}

#[test]
fn token_and_clone_messages() {
    assert_eq!(
        texts(&[token_message("tok"), token_saved_message("/home/me/.delivery/api-tokens")]),
        vec![
            t(Color::Magenta, "token: tok", true),
            t(Color::Green, "saved API token to: /home/me/.delivery/api-tokens", true),
        ]
    );
    assert_eq!(clone_url("", "ssh://d"), "ssh://d");
    assert_eq!(clone_url("git://g", "ssh://d"), "git://g");
    assert_eq!(
        texts(&clone_messages("ssh://d", "proj")),
        vec![
            t(Color::Yellow, "ssh://d", false),
            t(Color::White, " to ", false),
            t(Color::Magenta, "proj", true),
        ]
    );
}

#[test]
fn pipeline_and_misc_messages() {
    assert_eq!(
        texts(&pipeline_banner()),
        vec![t(Color::Green, "Chef Delivery: baking a new pipeline", true)]
    );
    assert_eq!(
        texts(&pipeline_messages("p1", "E", "O", "P")),
        vec![t(Color::White, "hello, pipeline p1\n", false), t(Color::White, "e: E o: O p: P", true)]
    );
    assert_eq!(
        texts(&loading_config_messages("/work")),
        vec![t(Color::White, "Loading configuration from ", false), t(Color::Yellow, "/work", true)]
    );
    assert_eq!(
        texts(&error_messages("bad", &Some("why".to_string()))),
        vec![t(Color::Red, "bad", true), t(Color::Red, "why", true)]
    );
    assert_eq!(error_messages("bad", &None).len(), 1);
}

fn run_init(local: bool, skip: bool, cached: bool) -> Vec<InitAction> {
    let mut seq = vec![];
    let mut last = None;
    loop {
        let a = init_next(local, skip, last, cached);
        seq.push(a);
        if a == InitAction::Done {
            break;
        }
        last = Some(a);
    }
    seq
}

#[test]
fn init_full_sequence() {
    assert_eq!(
        run_init(false, false, false),
        vec![InitAction::ImportProject, InitAction::LocateGenerator, InitAction::CloneGenerator, InitAction::GenerateCookbook, InitAction::WriteConfig, InitAction::CreateReview, InitAction::Done]
    );
}

#[test]
fn init_local_cached() {
    assert_eq!(run_init(true, false, true), vec![InitAction::LocateGenerator, InitAction::GenerateCookbook, InitAction::WriteConfig, InitAction::Done]);
}

#[test]
fn init_skip_cookbook() {
    assert_eq!(run_init(false, true, false), vec![InitAction::ImportProject, InitAction::WriteConfig, InitAction::CreateReview, InitAction::Done]);
    assert_eq!(run_init(true, true, false), vec![InitAction::WriteConfig, InitAction::Done]);
}

#[test]
fn init_step_messages_by_step() {
    assert_eq!(
        texts(&init_step_messages(Some(InitAction::ImportProject), InitAction::LocateGenerator, "")),
        vec![t(Color::White, "Generating build cookbook skeleton", true)]
    );
    assert_eq!(
        texts(&init_step_messages(Some(InitAction::LocateGenerator), InitAction::CloneGenerator, "\"/h/pcb\"")),
        vec![t(Color::White, "Cloning build cookbook generator dir \"/h/pcb\"", true)]
    );
    assert_eq!(
        texts(&init_step_messages(Some(InitAction::LocateGenerator), InitAction::GenerateCookbook, "")),
        vec![t(Color::Yellow, "Cached copy of build cookbook generator exists; skipping git clone.", true)]
    );
    assert!(init_step_messages(Some(InitAction::CloneGenerator), InitAction::GenerateCookbook, "").is_empty());
    assert!(init_step_messages(None, InitAction::ImportProject, "").is_empty());
}

#[test]
fn init_reviews_master_without_edit() {
    assert_eq!(init_review_request(), ("master".to_string(), false));
}

#[test]
fn clone_and_commit_lines() {
    assert_eq!(texts(&clone_intro()), vec![t(Color::White, "Cloning ", false)]);
    assert_eq!(
        texts(&cookbook_commit_messages()),
        vec![t(Color::White, "Git add and commit of build-cookbook", true)]
    );
}
