use delivery_cli::command::{select_command, Command, CommandFlags};
use delivery_cli::error::{no_matching_command, DeliveryError, Kind};
use delivery_cli::project::{path_file_name, project_from_path, project_or_from_cwd};

fn none() -> CommandFlags {
    CommandFlags {
        review: false,
        setup: false,
        init: false,
        checkout: false,
        diff: false,
        pipeline: false,
        api: false,
        clone: false,
        job: false,
        token: false,
        version: false,
    }
}

#[test]
fn no_flags_match_no_command() {
    let e = select_command(&none()).unwrap_err();
    assert_eq!(e.kind, Kind::NoMatchingCommand);
    assert!(e.detail.is_none());
    assert_eq!(no_matching_command().kind, Kind::NoMatchingCommand);
}

#[test]
fn each_flag_selects_its_command() {
    let mut f = none();
    f.job = true;
    assert_eq!(select_command(&f).unwrap(), Command::Job);
    let mut f = none();
    f.version = true;
    assert_eq!(select_command(&f).unwrap(), Command::Version);
    let mut f = none();
    f.api = true;
    assert_eq!(select_command(&f).unwrap(), Command::Api);
    let mut f = none();
    f.token = true;
    assert_eq!(select_command(&f).unwrap(), Command::Token);
}

#[test]
fn earlier_command_wins() {
    let mut f = none();
    f.version = true;
    f.review = true;
    f.clone = true;
    assert_eq!(select_command(&f).unwrap(), Command::Review);
    let mut f = none();
    f.diff = true;
    f.clone = true;
    assert_eq!(select_command(&f).unwrap(), Command::Diff);
}

#[test]
fn given_project_is_kept() {
    let r = project_or_from_cwd("myproj", || -> Result<String, DeliveryError> {
        panic!("the working directory must not be asked")
    });
    assert_eq!(r.unwrap(), "myproj");
}

#[test]
fn empty_project_comes_from_cwd() {
    let r = project_or_from_cwd("", || Ok(String::from("/home/me/workdir")));
    assert_eq!(r.unwrap(), "workdir");
    let r = project_or_from_cwd("", || Err(DeliveryError::new(Kind::NoHomedir)));
    assert_eq!(r.unwrap_err().kind, Kind::NoHomedir);
}

#[test]
fn project_names_from_paths() {
    assert_eq!(project_from_path("/home/me/work/proj"), "proj");
    assert_eq!(project_from_path("/home/me/work/proj/"), "proj");
    assert_eq!(project_from_path("/home/me/proj/."), "proj");
    assert_eq!(project_from_path("a//b"), "b");
    assert_eq!(project_from_path("./a"), "a");
    assert_eq!(project_from_path("/a/..b"), "..b");
}

#[test]
fn file_names_of_paths() {
    assert_eq!(path_file_name("/w/proj"), Some("proj".to_string()));
    assert_eq!(path_file_name("/"), None);
    assert_eq!(path_file_name(""), None);
    assert_eq!(path_file_name("."), None);
    assert_eq!(path_file_name("/home/.."), None);
}

#[test]
fn chosen_project_is_chosen_again() {
    let first = project_or_from_cwd("", || Ok("/w/proj".to_string())).unwrap();
    let second = project_or_from_cwd(&first, || -> Result<String, DeliveryError> {
        panic!("the working directory must not be asked again")
    });
    assert_eq!(second.unwrap(), "proj");
}
