use vstd::prelude::*;
use vstd::string::*;
use crate::text::{signed_decimal, push_signed_decimal};

verus! {

/// A command that a program may receive.
pub enum Message {
    Quit,
    Move { x: i32, y: i32 },
    Write(String),
    ChangeColor(i32, i32, i32),
}

/// The line that reports a message.
pub open spec fn message_text(msg: &Message) -> Seq<char> {
    match msg {
        Message::Quit => "Quit message received"@,
        Message::Move { x, y } => "Move to x="@ + signed_decimal(*x as int) + ", y="@
            + signed_decimal(*y as int),
        Message::Write(text) => "Text message: "@ + text@,
        Message::ChangeColor(r, g, b) => "Change color to RGB("@ + signed_decimal(*r as int)
            + ", "@ + signed_decimal(*g as int) + ", "@ + signed_decimal(*b as int) + ")"@,
    }
}

/// The line that reports a message: what kind it is and what it carries.
pub fn message_line(msg: &Message) -> (r: String)
    ensures
        r@ == message_text(msg),
{
    match msg {
        Message::Quit => String::from_str("Quit message received"),
        Message::Move { x, y } => {
            let mut out = String::from_str("Move to x=");
            push_signed_decimal(&mut out, *x);
            out.append(", y=");
            push_signed_decimal(&mut out, *y);
            out
        },
        Message::Write(text) => {
            let mut out = String::from_str("Text message: ");
            out.append(text.as_str());
            out
        },
        Message::ChangeColor(r, g, b) => {
            let mut out = String::from_str("Change color to RGB(");
            push_signed_decimal(&mut out, *r);
            out.append(", ");
            push_signed_decimal(&mut out, *g);
            out.append(", ");
            push_signed_decimal(&mut out, *b);
            out.append(")");
            out
        },
    }
}

} // verus!
