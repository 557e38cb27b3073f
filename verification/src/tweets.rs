use vstd::prelude::*;

verus! {

/// An immutable tweet value. Once it is delivered through the registered
/// callback, ownership transfers to the caller, who releases it explicitly.
pub struct Tweet {
    username: String,
    text: String,
}

impl Tweet {
    pub closed spec fn username_view(self) -> Seq<char> {
        self.username@
    }

    pub closed spec fn text_view(self) -> Seq<char> {
        self.text@
    }

    pub fn new(username: String, text: String) -> (r: Tweet)
        ensures
            r.username_view() == username@,
            r.text_view() == text@,
    {
        Tweet { username, text }
    }

    pub fn username(&self) -> (r: &str)
        ensures
            r@ == self.username_view(),
    {
        self.username.as_str()
    }

    pub fn text(&self) -> (r: &str)
        ensures
            r@ == self.text_view(),
    {
        self.text.as_str()
    }
}

/// The hardcoded stub client standing in for a real feed source.
pub struct Twitter {}

impl Twitter {
    pub fn new() -> (r: Twitter) {
        Twitter {  }
    }

    /// Returns the canned single-tweet feed.
    pub fn get(&mut self) -> (r: Vec<Tweet>)
        ensures
            r@.len() == 1,
            r@[0].username_view() == "Ryan Levick"@,
            r@[0].text_view() == "Some Text"@,
    {
        let mut v: Vec<Tweet> = Vec::new();
        v.push(Tweet::new("Ryan Levick".to_owned(), "Some Text".to_owned()));
        v
    }
}

} // verus!
