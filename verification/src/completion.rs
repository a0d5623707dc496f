//! What comes back from a text-completion backend, made ready for use.

use vstd::prelude::*;
use vstd::string::*;

verus! {

/// The text that a completion with backslash escapes written out stands
/// for, or nothing where an escape in it is malformed.
pub uninterp spec fn unescaped(s: Seq<char>) -> Option<Seq<char>>;

/// `unescape::unescape`, which replaces the backslash escapes of a text
/// by the characters they stand for, and gives nothing where one of them
/// is malformed. What it gives depends on the text alone.
#[verifier::external_body]
fn unescape_text(s: &str) -> (res: Option<String>)
    ensures
        match res {
            Some(text) => unescaped(s@) == Some(text@),
            None => unescaped(s@).is_none(),
        },
{
    unescape::unescape(s)
}

/// The response in a backend's completion, with its escapes replaced.
pub fn completion_text(completion: Option<&str>) -> (response: Option<String>)
    ensures
        match response {
            Some(text) => completion.is_some() && unescaped(completion.unwrap()@) == Some(text@),
            None => completion.is_none() || unescaped(completion.unwrap()@).is_none(),
        },
{
    match completion {
        Some(raw) => unescape_text(raw),
        None => None,
    }
}

/// A JSON document, as far as the library reads one.
#[derive(Debug, PartialEq, Eq)]
pub enum Json {
    Null,
    Bool(bool),
    /// A number, by its text.
    Number(String),
    Text(String),
    Array(Vec<Json>),
    /// The members of an object, each under its name.
    Object(Vec<(String, Json)>),
}

/// The first member of this name among the members of an object.
pub open spec fn first_named(members: Seq<(String, Json)>, name: Seq<char>) -> Option<Json>
    decreases members.len(),
{
    if members.len() == 0 {
        None
    } else if members[0].0@ == name {
        Some(members[0].1)
    } else {
        first_named(members.skip(1), name)
    }
}

impl Json {
    /// The member of this name, where this is an object that has one.
    pub open spec fn member(self, name: Seq<char>) -> Option<Json> {
        match self {
            Json::Object(members) => first_named(members@, name),
            _ => None,
        }
    }

    /// The element at this place, where this is an array that has one.
    pub open spec fn element(self, i: int) -> Option<Json> {
        match self {
            Json::Array(elements) => if 0 <= i < elements@.len() {
                Some(elements@[i])
            } else {
                None
            },
            _ => None,
        }
    }

    /// The text, where this is one.
    pub open spec fn text(self) -> Option<Seq<char>> {
        match self {
            Json::Text(text) => Some(text@),
            _ => None,
        }
    }

    /// The member of this name, where this is an object that has one.
    pub fn get(&self, name: &str) -> (found: Option<&Json>)
        ensures
            match found {
                Some(member) => self.member(name@) == Some(*member),
                None => self.member(name@).is_none(),
            },
    {
        match self {
            Json::Object(members) => {
                let wanted = name.to_owned();
                let mut i: usize = 0;
                assert(members@.skip(0) =~= members@);
                while i < members.len()
                    invariant
                        i <= members.len(),
                        wanted@ == name@,
                        self.member(name@) == first_named(members@.skip(i as int), name@),
                    decreases members.len() - i,
                {
                    assert(members@.skip(i as int)[0] == members@[i as int]);
                    if members[i].0 == wanted {
                        return Some(&members[i].1);
                    }
                    assert(members@.skip(i as int).skip(1) =~= members@.skip(i + 1));
                    i += 1;
                }
                assert(members@.skip(i as int).len() == 0);
                None
            },
            _ => None,
        }
    }

    /// The element at this place, where this is an array that has one.
    pub fn at(&self, i: usize) -> (found: Option<&Json>)
        ensures
            match found {
                Some(element) => self.element(i as int) == Some(*element),
                None => self.element(i as int).is_none(),
            },
    {
        match self {
            Json::Array(elements) => if i < elements.len() {
                Some(&elements[i])
            } else {
                None
            },
            _ => None,
        }
    }

    /// The text, where this is one.
    pub fn as_str(&self) -> (found: Option<&str>)
        ensures
            match found {
                Some(text) => self.text() == Some(text@),
                None => self.text().is_none(),
            },
    {
        match self {
            Json::Text(text) => Some(text.as_str()),
            _ => None,
        }
    }
}

/// The completion in a backend's answer: the text of the data of the
/// first of its completions, where the answer has all of these.
pub open spec fn completion_of(answer: Json) -> Option<Seq<char>> {
    match answer.member("completions"@) {
        Some(completions) => match completions.element(0) {
            Some(first) => match first.member("data"@) {
                Some(data) => match data.member("text"@) {
                    Some(text) => text.text(),
                    None => None,
                },
                None => None,
            },
            None => None,
        },
        None => None,
    }
}

/// The completion in a backend's answer, where it holds one.
pub fn completion_in(answer: &Json) -> (completion: Option<&str>)
    ensures
        match completion {
            Some(text) => completion_of(*answer) == Some(text@),
            None => completion_of(*answer).is_none(),
        },
{
    match answer.get("completions") {
        Some(completions) => match completions.at(0) {
            Some(first) => match first.get("data") {
                Some(data) => match data.get("text") {
                    Some(text) => text.as_str(),
                    None => None,
                },
                None => None,
            },
            None => None,
        },
        None => None,
    }
}

} // verus!
