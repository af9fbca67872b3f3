//! Summaries of articles and tweets.

use vstd::prelude::*;

verus! {

/// Anything that can introduce itself in a line of text.
pub trait Summary {
    /// What [`Summary::summarize`] says; a placeholder unless overridden.
    open spec fn spec_summarize(&self) -> Seq<char> {
        "(Read more...)"@
    }

    /// What [`Summary::summarize_author`] says.
    spec fn spec_summarize_author(&self) -> Seq<char>;

    /// The one-line summary of the item.
    fn summarize(&self) -> (r: String)
        ensures
            r@ == self.spec_summarize(),
    ;

    /// The one-line attribution of the item.
    fn summarize_author(&self) -> (r: String)
        ensures
            r@ == self.spec_summarize_author(),
    ;
}

/// A news article.
pub struct NewsArticle {
    pub headline: String,
    pub location: String,
    pub author: String,
    pub content: String,
}

impl Summary for NewsArticle {
    open spec fn spec_summarize_author(&self) -> Seq<char> {
        "Author: "@ + self.author@
    }

    fn summarize(&self) -> (r: String)
        ensures
            r@ == self.spec_summarize(),
    {
        "(Read more...)".to_owned()
    }

    fn summarize_author(&self) -> (r: String)
        ensures
            r@ == self.spec_summarize_author(),
    {
        let mut r = "Author: ".to_owned();
        r.append(self.author.as_str());
        r
    }
}

/// A tweet.
pub struct Tweet {
    pub username: String,
    pub content: String,
    pub reply: bool,
    pub retweet: bool,
}

impl Summary for Tweet {
    open spec fn spec_summarize(&self) -> Seq<char> {
        self.username@ + ": "@ + self.content@
    }

    open spec fn spec_summarize_author(&self) -> Seq<char> {
        "@"@ + self.username@
    }

    fn summarize(&self) -> (r: String)
        ensures
            r@ == self.spec_summarize(),
    {
        let mut r = self.username.clone();
        r.append(": ");
        r.append(self.content.as_str());
        r
    }

    fn summarize_author(&self) -> (r: String)
        ensures
            r@ == self.spec_summarize_author(),
    {
        let mut r = "@".to_owned();
        r.append(self.username.as_str());
        r
    }
}

/// Some item worth summarizing: a particular tweet, as it happens.
pub fn returns_summarizable() -> (r: Tweet)
    ensures
        r.username@ == "horse_ebooks"@,
        r.content@ == "of course, as you probably already know, people"@,
        !r.reply,
        !r.retweet,
{
    Tweet {
        username: "horse_ebooks".to_owned(),
        content: "of course, as you probably already know, people".to_owned(),
        reply: false,
        retweet: false,
    }
}

/// A pair of values of one type.
pub struct Pair<T> {
    x: T,
    y: T,
}

impl<T> Pair<T> {
    /// The first component.
    pub closed spec fn spec_x(self) -> T {
        self.x
    }

    /// The second component.
    pub closed spec fn spec_y(self) -> T {
        self.y
    }

    /// Pairs the two values up.
    pub fn new(x: T, y: T) -> (p: Pair<T>)
        ensures
            p.spec_x() == x,
            p.spec_y() == y,
    {
        Self { x, y }
    }
}

} // verus!
