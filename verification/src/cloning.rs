use vstd::prelude::*;
use vstd::string::*;

use crate::message::{push_say, push_sayln, say, sayln, views, Color, Message, MessageView};

verus! {

/// The URL that `delivery clone` clones from: the given `git_url`, or the
/// project's URL on the Delivery server when none is given.
pub fn clone_url(git_url: &str, delivery_url: &str) -> (res: String)
    ensures
        res@ == if git_url@.len() == 0 {
            delivery_url@
        } else {
            git_url@
        },
{
    if git_url.is_empty() {
        String::from_str(delivery_url)
    } else {
        String::from_str(git_url)
    }
}

/// What `delivery clone` prints after "Cloning ", once the URL is known.
pub open spec fn clone_view(url: Seq<char>, project: Seq<char>) -> Seq<MessageView> {
    seq![
        say(Color::Yellow, url),
        say(Color::White, " to "@),
        sayln(Color::Magenta, project),
    ]
}

/// The messages naming the URL that `project` is cloned from.
pub fn clone_messages(url: &str, project: &str) -> (res: Vec<Message>)
    ensures
        views(res@) == clone_view(url@, project@),
{
    let mut out: Vec<Message> = Vec::new();
    push_say(&mut out, Color::Yellow, url);
    push_say(&mut out, Color::White, " to ");
    push_sayln(&mut out, Color::Magenta, project);
    assert(views(out@) =~= clone_view(url@, project@));
    out
}

/// What `delivery clone` prints before it asks for the project's URL.
pub fn clone_intro() -> (res: Vec<Message>)
    ensures
        views(res@) == seq![say(Color::White, "Cloning "@)],
{
    let mut out: Vec<Message> = Vec::new();
    push_say(&mut out, Color::White, "Cloning ");
    assert(views(out@) =~= seq![say(Color::White, "Cloning "@)]);
    out
}

} // verus!
