use vstd::prelude::*;
use vstd::string::*;

use crate::message::{concat2, push_message, push_sayln, sayln, views, Color, Message, MessageView};

verus! {

/// The steps of `delivery init` that touch the outside world.
#[derive(Debug, Clone, Copy, PartialEq, Eq, Structural)]
pub enum InitAction {
    /// Import the project into the Delivery server.
    ImportProject,
    /// Find the directory of the build cookbook generator, and whether a
    /// cached copy of it exists.
    LocateGenerator,
    /// Clone the build cookbook generator into that directory.
    CloneGenerator,
    /// Generate the build cookbook into `.delivery/build-cookbook`, then add
    /// and commit it with git.
    GenerateCookbook,
    /// Write `.delivery/config.json`.
    WriteConfig,
    /// Push the review of the new branch to `master`.
    CreateReview,
    /// Nothing is left to do.
    Done,
}

/// The step that follows the import of the project (or the start, for a
/// local init).
pub open spec fn after_import(skip_build_cookbook: bool) -> InitAction {
    if skip_build_cookbook {
        InitAction::WriteConfig
    } else {
        InitAction::LocateGenerator
    }
}

/// The step of `init` that follows `last` (`None` at the start). `local`
/// keeps the server out of it; `skip_build_cookbook` leaves out the build
/// cookbook; `generator_cached` tells, once the generator is located,
/// whether a cached copy of it exists.
pub open spec fn init_next_spec(
    local: bool,
    skip_build_cookbook: bool,
    last: Option<InitAction>,
    generator_cached: bool,
) -> InitAction {
    match last {
        None => if local {
            after_import(skip_build_cookbook)
        } else {
            InitAction::ImportProject
        },
        Some(InitAction::ImportProject) => after_import(skip_build_cookbook),
        Some(InitAction::LocateGenerator) => if generator_cached {
            InitAction::GenerateCookbook
        } else {
            InitAction::CloneGenerator
        },
        Some(InitAction::CloneGenerator) => InitAction::GenerateCookbook,
        Some(InitAction::GenerateCookbook) => InitAction::WriteConfig,
        Some(InitAction::WriteConfig) => if local {
            InitAction::Done
        } else {
            InitAction::CreateReview
        },
        Some(InitAction::CreateReview) => InitAction::Done,
        Some(InitAction::Done) => InitAction::Done,
    }
}

/// The next step of `delivery init` (see `init_next_spec`).
pub fn init_next(
    local: bool,
    skip_build_cookbook: bool,
    last: Option<InitAction>,
    generator_cached: bool,
) -> (res: InitAction)
    ensures
        res == init_next_spec(local, skip_build_cookbook, last, generator_cached),
{
    let after = if skip_build_cookbook {
        InitAction::WriteConfig
    } else {
        InitAction::LocateGenerator
    };
    match last {
        None => if local {
            after
        } else {
            InitAction::ImportProject
        },
        Some(InitAction::ImportProject) => after,
        Some(InitAction::LocateGenerator) => if generator_cached {
            InitAction::GenerateCookbook
        } else {
            InitAction::CloneGenerator
        },
        Some(InitAction::CloneGenerator) => InitAction::GenerateCookbook,
        Some(InitAction::GenerateCookbook) => InitAction::WriteConfig,
        Some(InitAction::WriteConfig) => if local {
            InitAction::Done
        } else {
            InitAction::CreateReview
        },
        Some(InitAction::CreateReview) => InitAction::Done,
        Some(InitAction::Done) => InitAction::Done,
    }
}

/// The steps of a whole `init`, ending with `Done`: import unless local;
/// unless skipped, locate the generator, clone it unless cached, and
/// generate the cookbook; write the configuration; review unless local.
pub open spec fn init_sequence(local: bool, skip_build_cookbook: bool, generator_cached: bool) -> Seq<
    InitAction,
> {
    (if local {
        seq![]
    } else {
        seq![InitAction::ImportProject]
    }) + (if skip_build_cookbook {
        seq![]
    } else {
        seq![InitAction::LocateGenerator] + (if generator_cached {
            seq![]
        } else {
            seq![InitAction::CloneGenerator]
        }) + seq![InitAction::GenerateCookbook]
    }) + seq![InitAction::WriteConfig] + (if local {
        seq![]
    } else {
        seq![InitAction::CreateReview]
    }) + seq![InitAction::Done]
}

/// Following `init_next` from the start, one step after another, performs
/// exactly the steps of `init_sequence`, and then stays `Done`.
pub proof fn lemma_init_follows_sequence(local: bool, skip_build_cookbook: bool, generator_cached: bool)
    ensures
        ({
            let s = init_sequence(local, skip_build_cookbook, generator_cached);
            &&& init_next_spec(local, skip_build_cookbook, None, generator_cached) == s[0]
            &&& forall|i: int|
                0 <= i < s.len() - 1 ==> init_next_spec(
                    local,
                    skip_build_cookbook,
                    Some(#[trigger] s[i]),
                    generator_cached,
                ) == s[i + 1]
            &&& s.last() == InitAction::Done
            &&& init_next_spec(local, skip_build_cookbook, Some(InitAction::Done), generator_cached)
                == InitAction::Done
        }),
{
    let s = init_sequence(local, skip_build_cookbook, generator_cached);
    assert forall|i: int| 0 <= i < s.len() - 1 implies init_next_spec(
        local,
        skip_build_cookbook,
        Some(#[trigger] s[i]),
        generator_cached,
    ) == s[i + 1] by {
        if local {
            if skip_build_cookbook {
                assert(s =~= seq![InitAction::WriteConfig, InitAction::Done]);
            } else if generator_cached {
                assert(s =~= seq![
                    InitAction::LocateGenerator,
                    InitAction::GenerateCookbook,
                    InitAction::WriteConfig,
                    InitAction::Done,
                ]);
            } else {
                assert(s =~= seq![
                    InitAction::LocateGenerator,
                    InitAction::CloneGenerator,
                    InitAction::GenerateCookbook,
                    InitAction::WriteConfig,
                    InitAction::Done,
                ]);
            }
        } else {
            if skip_build_cookbook {
                assert(s =~= seq![
                    InitAction::ImportProject,
                    InitAction::WriteConfig,
                    InitAction::CreateReview,
                    InitAction::Done,
                ]);
            } else if generator_cached {
                assert(s =~= seq![
                    InitAction::ImportProject,
                    InitAction::LocateGenerator,
                    InitAction::GenerateCookbook,
                    InitAction::WriteConfig,
                    InitAction::CreateReview,
                    InitAction::Done,
                ]);
            } else {
                assert(s =~= seq![
                    InitAction::ImportProject,
                    InitAction::LocateGenerator,
                    InitAction::CloneGenerator,
                    InitAction::GenerateCookbook,
                    InitAction::WriteConfig,
                    InitAction::CreateReview,
                    InitAction::Done,
                ]);
            }
        }
    }
}

/// A local `init` never talks to the Delivery server: it neither imports
/// the project nor pushes a review; a skipped build cookbook is neither
/// located, cloned nor generated; a cached generator is not cloned again;
/// and every `init` writes the configuration exactly once.
pub proof fn lemma_init_sequence_contents(local: bool, skip_build_cookbook: bool, generator_cached: bool)
    ensures
        ({
            let s = init_sequence(local, skip_build_cookbook, generator_cached);
            &&& local ==> !s.contains(InitAction::ImportProject) && !s.contains(InitAction::CreateReview)
            &&& !local ==> s.contains(InitAction::ImportProject) && s.contains(InitAction::CreateReview)
            &&& skip_build_cookbook ==> !s.contains(InitAction::LocateGenerator)
                && !s.contains(InitAction::CloneGenerator) && !s.contains(InitAction::GenerateCookbook)
            &&& !skip_build_cookbook ==> s.contains(InitAction::GenerateCookbook)
            &&& generator_cached ==> !s.contains(InitAction::CloneGenerator)
            &&& s.filter(|a: InitAction| a == InitAction::WriteConfig).len() == 1
        }),
{
    let s = init_sequence(local, skip_build_cookbook, generator_cached);
    reveal_with_fuel(Seq::filter, 8);
    if local {
        if skip_build_cookbook {
            assert(s =~= seq![InitAction::WriteConfig, InitAction::Done]);
        } else if generator_cached {
            assert(s =~= seq![
                InitAction::LocateGenerator,
                InitAction::GenerateCookbook,
                InitAction::WriteConfig,
                InitAction::Done,
            ]);
        } else {
            assert(s =~= seq![
                InitAction::LocateGenerator,
                InitAction::CloneGenerator,
                InitAction::GenerateCookbook,
                InitAction::WriteConfig,
                InitAction::Done,
            ]);
        }
    } else {
        if skip_build_cookbook {
            assert(s =~= seq![
                InitAction::ImportProject,
                InitAction::WriteConfig,
                InitAction::CreateReview,
                InitAction::Done,
            ]);
        } else if generator_cached {
            assert(s =~= seq![
                InitAction::ImportProject,
                InitAction::LocateGenerator,
                InitAction::GenerateCookbook,
                InitAction::WriteConfig,
                InitAction::CreateReview,
                InitAction::Done,
            ]);
        } else {
            assert(s =~= seq![
                InitAction::ImportProject,
                InitAction::LocateGenerator,
                InitAction::CloneGenerator,
                InitAction::GenerateCookbook,
                InitAction::WriteConfig,
                InitAction::CreateReview,
                InitAction::Done,
            ]);
        }
    }
}

/// What `init` prints as it starts `action`, the step after `last`;
/// `generator_dir` is the generator's directory as it is shown.
pub open spec fn init_step_view(
    last: Option<InitAction>,
    action: InitAction,
    generator_dir: Seq<char>,
) -> Seq<MessageView> {
    match action {
        InitAction::LocateGenerator => seq![sayln(Color::White, "Generating build cookbook skeleton"@)],
        InitAction::CloneGenerator => seq![
            sayln(Color::White, "Cloning build cookbook generator dir "@ + generator_dir),
        ],
        InitAction::GenerateCookbook => if last == Some(InitAction::LocateGenerator) {
            seq![
                sayln(
                    Color::Yellow,
                    "Cached copy of build cookbook generator exists; skipping git clone."@,
                ),
            ]
        } else {
            seq![]
        },
        _ => seq![],
    }
}

/// The messages that `init` prints as it starts a step (see `init_step_view`).
pub fn init_step_messages(last: Option<InitAction>, action: InitAction, generator_dir: &str) -> (res:
    Vec<Message>)
    ensures
        views(res@) == init_step_view(last, action, generator_dir@),
{
    let mut out: Vec<Message> = Vec::new();
    match action {
        InitAction::LocateGenerator => {
            push_sayln(&mut out, Color::White, "Generating build cookbook skeleton");
        },
        InitAction::CloneGenerator => {
            push_message(
                &mut out,
                Color::White,
                concat2("Cloning build cookbook generator dir ", generator_dir),
                true,
            );
        },
        InitAction::GenerateCookbook => {
            if last == Some(InitAction::LocateGenerator) {
                push_sayln(
                    &mut out,
                    Color::Yellow,
                    "Cached copy of build cookbook generator exists; skipping git clone.",
                );
            }
        },
        _ => {},
    }
    assert(views(out@) =~= init_step_view(last, action, generator_dir@));
    out
}

/// The review that `init` pushes: to the `master` pipeline, without
/// editing the change's description.
pub fn init_review_request() -> (res: (String, bool))
    ensures
        res.0@ == "master"@,
        !res.1,
{
    (String::from_str("master"), false)
}

/// What `init` prints once the build cookbook is generated, before it adds
/// and commits it.
pub fn cookbook_commit_messages() -> (res: Vec<Message>)
    ensures
        views(res@) == seq![sayln(Color::White, "Git add and commit of build-cookbook"@)],
{
    let mut out: Vec<Message> = Vec::new();
    push_sayln(&mut out, Color::White, "Git add and commit of build-cookbook");
    assert(views(out@) =~= seq![sayln(Color::White, "Git add and commit of build-cookbook"@)]);
    out
}

} // verus!
