use vstd::prelude::*;
use vstd::string::*;

verus! {

/// The colors in which the client prints.
#[derive(Debug, Clone, Copy, PartialEq, Eq, Structural)]
pub enum Color {
    White,
    Green,
    Yellow,
    Magenta,
    Red,
}

/// One piece of output: a text in a color, ended by a newline or not.
#[derive(Debug, Clone)]
pub struct Message {
    pub color: Color,
    pub text: String,
    pub newline: bool,
}

/// What a `Message` holds, as plain values.
pub struct MessageView {
    pub color: Color,
    pub text: Seq<char>,
    pub newline: bool,
}

impl View for Message {
    type V = MessageView;

    open spec fn view(&self) -> MessageView {
        MessageView { color: self.color, text: self.text@, newline: self.newline }
    }
}

/// The views of a sequence of messages.
pub open spec fn views(msgs: Seq<Message>) -> Seq<MessageView> {
    msgs.map_values(|m: Message| m@)
}

/// Text printed in `color`, the line left open.
pub open spec fn say(color: Color, text: Seq<char>) -> MessageView {
    MessageView { color, text, newline: false }
}

/// Text printed in `color`, ended by a newline.
pub open spec fn sayln(color: Color, text: Seq<char>) -> MessageView {
    MessageView { color, text, newline: true }
}

/// Appends a message to `out`.
pub fn push_message(out: &mut Vec<Message>, color: Color, text: String, newline: bool)
    ensures
        views(final(out)@) == views(old(out)@).push(MessageView { color, text: text@, newline }),
{
    let ghost before = out@;
    out.push(Message { color, text, newline });
    proof {
        assert(views(out@) =~= views(before).push(MessageView { color, text: text@, newline }));
    }
}

/// Appends `text` in `color`, the line left open.
pub fn push_say(out: &mut Vec<Message>, color: Color, text: &str)
    ensures
        views(final(out)@) == views(old(out)@).push(say(color, text@)),
{
    push_message(out, color, String::from_str(text), false);
}

/// Appends `text` in `color`, ended by a newline.
pub fn push_sayln(out: &mut Vec<Message>, color: Color, text: &str)
    ensures
        views(final(out)@) == views(old(out)@).push(sayln(color, text@)),
{
    push_message(out, color, String::from_str(text), true);
}

/// The concatenation of two strings.
pub fn concat2(a: &str, b: &str) -> (res: String)
    ensures
        res@ == a@ + b@,
{
    let mut res = String::from_str(a);
    res.append(b);
    res
}

/// The concatenation of three strings.
pub fn concat3(a: &str, b: &str, c: &str) -> (res: String)
    ensures
        res@ == a@ + b@ + c@,
{
    let mut res = String::from_str(a);
    res.append(b);
    res.append(c);
    res
}

/// The banner that every command prints first.
pub fn banner(out: &mut Vec<Message>)
    ensures
        views(final(out)@) == views(old(out)@).push(sayln(Color::Green, "Chef Delivery"@)),
{
    push_sayln(out, Color::Green, "Chef Delivery");
}

} // verus!

verus! {

/// What every command that reads the configuration prints first.
pub open spec fn loading_view(path: Seq<char>) -> Seq<MessageView> {
    seq![say(Color::White, "Loading configuration from "@), sayln(Color::Yellow, path)]
}

/// The messages announcing that the configuration is read from `path`.
pub fn loading_config_messages(path: &str) -> (res: Vec<Message>)
    ensures
        views(res@) == loading_view(path@),
{
    let mut out: Vec<Message> = Vec::new();
    push_say(&mut out, Color::White, "Loading configuration from ");
    push_sayln(&mut out, Color::Yellow, path);
    assert(views(out@) =~= loading_view(path@));
    out
}

/// The messages of an error: its description in red, then its detail in
/// red when there is one.
pub open spec fn error_view(description: Seq<char>, detail: Option<Seq<char>>) -> Seq<MessageView> {
    seq![sayln(Color::Red, description)] + match detail {
        Some(d) => seq![sayln(Color::Red, d)],
        None => seq![],
    }
}

/// What the client prints before it exits with an error described by
/// `description`, with the error's `detail`.
pub fn error_messages(description: &str, detail: &Option<String>) -> (res: Vec<Message>)
    ensures
        views(res@) == error_view(
            description@,
            match detail {
                Some(d) => Some(d@),
                None => None,
            },
        ),
{
    let mut out: Vec<Message> = Vec::new();
    push_sayln(&mut out, Color::Red, description);
    match detail {
        Some(d) => {
            push_message(&mut out, Color::Red, d.clone(), true);
        },
        None => {},
    }
    assert(views(out@) =~= error_view(
        description@,
        match detail {
            Some(d) => Some(d@),
            None => None,
        },
    ));
    out
}

} // verus!
