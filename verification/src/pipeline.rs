use vstd::prelude::*;
use vstd::string::*;

use crate::message::{concat2, push_message, push_sayln, say, sayln, views, Color, Message, MessageView};

verus! {

/// What `delivery pipeline` prints for a new pipeline of project `p` in
/// enterprise `e` and organization `o`.
pub open spec fn pipeline_view(pipeline: Seq<char>, e: Seq<char>, o: Seq<char>, p: Seq<char>) -> Seq<
    MessageView,
> {
    seq![
        sayln(Color::Green, "Chef Delivery: baking a new pipeline"@),
        say(Color::White, "hello, pipeline "@ + pipeline + "\n"@),
        sayln(Color::White, "e: "@ + e + " o: "@ + o + " p: "@ + p),
    ]
}

/// The banner of `delivery pipeline`, which comes first.
pub fn pipeline_banner() -> (res: Vec<Message>)
    ensures
        views(res@) == seq![sayln(Color::Green, "Chef Delivery: baking a new pipeline"@)],
{
    let mut out: Vec<Message> = Vec::new();
    push_sayln(&mut out, Color::Green, "Chef Delivery: baking a new pipeline");
    assert(views(out@) =~= seq![sayln(Color::Green, "Chef Delivery: baking a new pipeline"@)]);
    out
}

/// The messages of `delivery pipeline` once the configuration is validated.
pub fn pipeline_messages(pipeline: &str, e: &str, o: &str, p: &str) -> (res: Vec<Message>)
    ensures
        views(res@) == pipeline_view(pipeline@, e@, o@, p@).skip(1),
{
    let mut out: Vec<Message> = Vec::new();
    let mut hello = concat2("hello, pipeline ", pipeline);
    hello.append("\n");
    push_message(&mut out, Color::White, hello, false);
    let mut eop = concat2("e: ", e);
    eop.append(" o: ");
    eop.append(o);
    eop.append(" p: ");
    eop.append(p);
    push_message(&mut out, Color::White, eop, true);
    assert(views(out@) =~= pipeline_view(pipeline@, e@, o@, p@).skip(1));
    out
}

} // verus!
