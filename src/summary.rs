use vstd::prelude::*;
use vstd::string::*;

verus! {

/// Something that can describe itself in one line of text.
pub trait Summary {
    /// The line that `summarize` returns.
    spec fn summary_text(&self) -> Seq<char>;

    /// A one-line description of the item.
    fn summarize(&self) -> (r: String)
        ensures
            r@ == self.summary_text(),
    ;

    /// The item's summary under the default announcement heading.
    fn announce(&self) -> (r: String)
        ensures
            r@ == "(Default Announcement): "@ + self.summary_text(),
    {
        let mut out = String::from_str("(Default Announcement): ");
        let line = self.summarize();
        out.append(line.as_str());
        out
    }
}

/// A short post: who wrote it and what it says.
pub struct Tweet {
    pub username: String,
    pub content: String,
}

/// A news story: its headline and its author.
pub struct NewsArticle {
    pub headline: String,
    pub author: String,
}

impl Summary for Tweet {
    /// `@<username>: <content>`.
    open spec fn summary_text(&self) -> Seq<char> {
        "@"@ + self.username@ + ": "@ + self.content@
    }

    fn summarize(&self) -> (r: String) {
        let mut out = String::from_str("@");
        out.append(self.username.as_str());
        out.append(": ");
        out.append(self.content.as_str());
        out
    }
}

impl Summary for NewsArticle {
    /// `<headline> by <author>`.
    open spec fn summary_text(&self) -> Seq<char> {
        self.headline@ + " by "@ + self.author@
    }

    fn summarize(&self) -> (r: String) {
        let mut out = self.headline.clone();
        out.append(" by ");
        out.append(self.author.as_str());
        out
    }
}

/// The breaking-news line for any item that has a summary.
pub fn notify<T: Summary>(item: &T) -> (r: String)
    ensures
        r@ == "Breaking News! "@ + item.summary_text(),
{
    let mut out = String::from_str("Breaking News! ");
    let line = item.summarize();
    out.append(line.as_str());
    out
}

} // verus!
