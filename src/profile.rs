use vstd::prelude::*;
use vstd::string::*;
use crate::text::{signed_decimal, push_signed_decimal};

verus! {

/// A user who may or may not have given an age.
pub struct UserProfile {
    pub username: String,
    pub age: Option<i32>,
}

/// The line that tells a user's age, or that it is unknown.
pub open spec fn age_text(user: &UserProfile) -> Seq<char> {
    match user.age {
        Some(age) => user.username@ + " is "@ + signed_decimal(age as int) + " years old."@,
        None => user.username@ + "'s age is a mystery."@,
    }
}

/// The line that reports a developer lookup, found or not.
pub open spec fn developer_text(dev: Option<&str>) -> Seq<char> {
    match dev {
        Some(name) => "Found developer: "@ + name@,
        None => "No developer found at that index."@,
    }
}

/// The line that tells a user's age, or that it is unknown.
pub fn age_line(user: &UserProfile) -> (r: String)
    ensures
        r@ == age_text(user),
{
    let mut out = user.username.clone();
    match user.age {
        Some(age) => {
            out.append(" is ");
            push_signed_decimal(&mut out, age);
            out.append(" years old.");
        },
        None => {
            out.append("'s age is a mystery.");
        },
    }
    out
}

/// The line that reports a developer lookup, found or not.
pub fn developer_line(dev: Option<&str>) -> (r: String)
    ensures
        r@ == developer_text(dev),
{
    match dev {
        Some(name) => {
            let mut out = String::from_str("Found developer: ");
            out.append(name);
            out
        },
        None => String::from_str("No developer found at that index."),
    }
}

} // verus!
