use vstd::prelude::*;
use vstd::string::*;

use crate::error::{DeliveryError, Kind};
use crate::message::{
    concat3, push_message, push_say, push_sayln, say, sayln, views, Color, Message, MessageView,
};

verus! {

/// Whether `patchset` names the newest patchset of a change.
pub open spec fn is_latest(patchset: Seq<char>) -> bool {
    patchset == "latest"@
}

fn str_eq(a: &str, b: &str) -> (res: bool)
    ensures
        res == (a@ == b@),
{
    String::from_str(a) == String::from_str(b)
}

/// What `checkout` and `diff` print about the patchset they use.
pub open spec fn patchset_tail(
    patchset: Seq<char>,
    latest_text: Seq<char>,
) -> Seq<MessageView> {
    if is_latest(patchset) {
        seq![sayln(Color::White, latest_text)]
    } else {
        seq![say(Color::White, " at patchset "@), sayln(Color::Yellow, patchset)]
    }
}

fn push_patchset_tail(out: &mut Vec<Message>, patchset: &str, latest_text: &str)
    ensures
        views(final(out)@) == views(old(out)@) + patchset_tail(patchset@, latest_text@),
{
    let ghost before = views(out@);
    if str_eq(patchset, "latest") {
        push_sayln(out, Color::White, latest_text);
        assert(views(out@) =~= before + patchset_tail(patchset@, latest_text@));
    } else {
        push_say(out, Color::White, " at patchset ");
        push_sayln(out, Color::Yellow, patchset);
        assert(views(out@) =~= before + patchset_tail(patchset@, latest_text@));
    }
}

/// What `checkout` prints once the target pipeline is known.
pub open spec fn checkout_view(
    change: Seq<char>,
    target: Seq<char>,
    patchset: Seq<char>,
) -> Seq<MessageView> {
    seq![
        say(Color::White, "Checking out "@),
        say(Color::Yellow, change),
        say(Color::White, " targeted for pipeline "@),
        say(Color::Magenta, target),
    ] + patchset_tail(patchset, " tracking latest changes"@)
}

/// The messages that `delivery checkout` prints before it checks the change out.
pub fn checkout_messages(change: &str, target: &str, patchset: &str) -> (res: Vec<Message>)
    ensures
        views(res@) == checkout_view(change@, target@, patchset@),
{
    let mut out: Vec<Message> = Vec::new();
    push_say(&mut out, Color::White, "Checking out ");
    push_say(&mut out, Color::Yellow, change);
    push_say(&mut out, Color::White, " targeted for pipeline ");
    push_say(&mut out, Color::Magenta, target);
    push_patchset_tail(&mut out, patchset, " tracking latest changes");
    assert(views(out@) =~= checkout_view(change@, target@, patchset@));
    out
}

/// What `diff` prints once the target pipeline is known.
pub open spec fn diff_view(
    change: Seq<char>,
    target: Seq<char>,
    patchset: Seq<char>,
) -> Seq<MessageView> {
    seq![
        say(Color::White, "Showing diff for "@),
        say(Color::Yellow, change),
        say(Color::White, " targeted for pipeline "@),
        say(Color::Magenta, target),
    ] + patchset_tail(patchset, " latest patchset"@)
}

/// The messages that `delivery diff` prints before it shows the diff.
pub fn diff_messages(change: &str, target: &str, patchset: &str) -> (res: Vec<Message>)
    ensures
        views(res@) == diff_view(change@, target@, patchset@),
{
    let mut out: Vec<Message> = Vec::new();
    push_say(&mut out, Color::White, "Showing diff for ");
    push_say(&mut out, Color::Yellow, change);
    push_say(&mut out, Color::White, " targeted for pipeline ");
    push_say(&mut out, Color::Magenta, target);
    push_patchset_tail(&mut out, patchset, " latest patchset");
    assert(views(out@) =~= diff_view(change@, target@, patchset@));
    out
}

/// What `review` prints before it asks git for the current branch.
pub fn review_intro() -> (res: Vec<Message>)
    ensures
        views(res@) == seq![say(Color::White, "Review for change "@)],
{
    let mut out: Vec<Message> = Vec::new();
    push_say(&mut out, Color::White, "Review for change ");
    assert(views(out@) =~= seq![say(Color::White, "Review for change "@)]);
    out
}

/// What `review` prints after "Review for change ", once the current branch
/// `head` is known and differs from the target pipeline.
pub open spec fn review_branch_view(head: Seq<char>, target: Seq<char>) -> Seq<MessageView> {
    seq![
        say(Color::Yellow, head),
        say(Color::White, " targeted for pipeline "@),
        sayln(Color::Magenta, target),
    ]
}

/// Checks that a review of branch `head` may target pipeline `target`, and
/// gives the messages that name them. A change cannot be reviewed from the
/// branch it is targeted at: that is refused with `CannotReviewSameBranch`.
pub fn review_branch_messages(head: &str, target: &str) -> (res: Result<
    Vec<Message>,
    DeliveryError,
>)
    ensures
        res is Err <==> head@ == target@,
        res matches Err(e) ==> e.kind == Kind::CannotReviewSameBranch && e.detail is None,
        res matches Ok(msgs) ==> views(msgs@) == review_branch_view(head@, target@),
{
    if str_eq(target, head) {
        return Err(DeliveryError::new(Kind::CannotReviewSameBranch));
    }
    let mut out: Vec<Message> = Vec::new();
    push_say(&mut out, Color::Yellow, head);
    push_say(&mut out, Color::White, " targeted for pipeline ");
    push_sayln(&mut out, Color::Magenta, target);
    assert(views(out@) =~= review_branch_view(head@, target@));
    Ok(out)
}

/// The text that is handed to the editor when a change's description is
/// edited: the title, a blank line, the description and a final newline.
pub open spec fn edit_text(title: Seq<char>, description: Seq<char>) -> Seq<char> {
    title + "\n\n"@ + description + "\n"@
}

/// The text handed to the editor holds the title and the whole description,
/// whatever its length: the title comes first, the description can be read
/// back unchanged after the title and two newlines, and only three
/// characters are added.
pub proof fn lemma_edit_text_holds_description(title: Seq<char>, description: Seq<char>)
    ensures
        ({
            let t = edit_text(title, description);
            &&& t.len() == title.len() + description.len() + 3
            &&& t.subrange(0, title.len() as int) == title
            &&& t.subrange(title.len() as int + 2, title.len() as int + 2 + description.len()) == description
            &&& t[title.len() as int] == '\n'
            &&& t[title.len() as int + 1] == '\n'
            &&& t[t.len() - 1] == '\n'
        }),
{
    reveal_strlit("\n\n");
    reveal_strlit("\n");
    let t = edit_text(title, description);
    assert(t =~= title + seq!['\n', '\n'] + description + seq!['\n']);
    assert(t.subrange(0, title.len() as int) =~= title);
    assert(t.subrange(title.len() as int + 2, title.len() as int + 2 + description.len()) =~= description);
}

/// The text to edit for a change with the given title and description.
pub fn change_edit_text(title: &str, description: &str) -> (res: String)
    ensures
        res@ == edit_text(title@, description@),
        res@.len() == title@.len() + description@.len() + 3,
        res@.subrange(0, title@.len() as int) == title@,
        res@.subrange(title@.len() as int + 2, title@.len() as int + 2 + description@.len()) == description@,
{
    proof {
        lemma_edit_text_holds_description(title@, description@);
    }
    let mut res = concat3(title, "\n\n", description);
    res.append("\n");
    res
}

/// What the client does with the answer to a pushed review: the lines it
/// prints, and the URL it opens in a browser, if any.
pub struct ReviewOutput {
    pub messages: Vec<Message>,
    pub open: Option<String>,
}

/// Each line of the server's answer, printed in white.
pub open spec fn white_lines(lines: Seq<String>) -> Seq<MessageView> {
    lines.map_values(|l: String| sayln(Color::White, l@))
}

/// The view of an optional string.
pub open spec fn opt_view(s: Option<String>) -> Option<Seq<char>> {
    match s {
        Some(t) => Some(t@),
        None => None,
    }
}

/// The review URL, printed in magenta, when the server gave one.
pub open spec fn url_lines(url: Option<Seq<char>>) -> Seq<MessageView> {
    match url {
        Some(u) => seq![sayln(Color::Magenta, u)],
        None => seq![],
    }
}

/// What to print and open for a review result with the server's `lines` and
/// `url`: every line in white, then the URL in magenta; the URL is opened
/// unless `no_open` is set.
pub fn review_result_output(lines: &Vec<String>, url: &Option<String>, no_open: bool) -> (res:
    ReviewOutput)
    ensures
        views(res.messages@) == white_lines(lines@) + url_lines(opt_view(*url)),
        opt_view(res.open) == if no_open {
            None
        } else {
            opt_view(*url)
        },
{
    let mut out: Vec<Message> = Vec::new();
    let mut i: usize = 0;
    while i < lines.len()
        invariant
            i <= lines.len(),
            views(out@) == white_lines(lines@.take(i as int)),
        decreases lines.len() - i,
    {
        let ghost before = views(out@);
        push_message(&mut out, Color::White, lines[i].clone(), true);
        proof {
            assert(lines@.take(i + 1) =~= lines@.take(i as int).push(lines@[i as int]));
            assert(white_lines(lines@.take(i + 1)) =~= before.push(
                sayln(Color::White, lines@[i as int]@),
            ));
        }
        i = i + 1;
    }
    assert(lines@.take(lines.len() as int) =~= lines@);
    let ghost before = views(out@);
    let open = match url {
        Some(u) => {
            push_message(&mut out, Color::Magenta, u.clone(), true);
            assert(views(out@) =~= before + url_lines(opt_view(*url)));
            if no_open {
                None
            } else {
                Some(u.clone())
            }
        },
        None => {
            assert(views(out@) =~= before + url_lines(opt_view(*url)));
            None
        },
    };
    ReviewOutput { messages: out, open }
}

} // verus!
