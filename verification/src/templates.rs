//! The library of agent templates: named configurations from which
//! agents can be made.

use crate::god::{GodConfig, Snapshot};
use vstd::prelude::*;

verus! {

/// The templates that a list of named configurations holds: a later
/// entry takes the place of an earlier one of the same name.
pub open spec fn library_of(entries: Seq<(String, GodConfig)>) -> Map<Seq<char>, Snapshot>
    decreases entries.len(),
{
    if entries.len() == 0 {
        Map::empty()
    } else {
        library_of(entries.drop_last()).insert(entries.last().0@, entries.last().1@)
    }
}

/// A name that none of the later entries of a list has is looked up
/// among the earlier ones.
proof fn library_of_front(entries: Seq<(String, GodConfig)>, n: int, name: Seq<char>)
    requires
        0 <= n <= entries.len(),
        forall|j: int| n <= j < entries.len() ==> (#[trigger] entries[j]).0@ != name,
    ensures
        library_of(entries).contains_key(name) == library_of(entries.take(n)).contains_key(name),
        library_of(entries).contains_key(name) ==> library_of(entries)[name] == library_of(
            entries.take(n),
        )[name],
    decreases entries.len() - n,
{
    if n == entries.len() {
        assert(entries.take(n) =~= entries);
    } else {
        let front = entries.drop_last();
        assert(entries.last() == entries[entries.len() - 1]);
        assert forall|j: int| n <= j < front.len() implies (#[trigger] front[j]).0@ != name by {
            assert(front[j] == entries[j]);
        }
        library_of_front(front, n, name);
        assert(front.take(n) =~= entries.take(n));
    }
}

/// Named agent templates.
#[derive(Debug)]
pub struct TemplateLibrary {
    entries: Vec<(String, GodConfig)>,
}

impl View for TemplateLibrary {
    type V = Map<Seq<char>, Snapshot>;

    closed spec fn view(&self) -> Map<Seq<char>, Snapshot> {
        library_of(self.entries@)
    }
}

impl TemplateLibrary {
    /// A library without templates.
    pub fn new() -> (library: TemplateLibrary)
        ensures
            library@ == Map::<Seq<char>, Snapshot>::empty(),
    {
        TemplateLibrary { entries: Vec::new() }
    }

    /// Takes in the outcome of reading one document. A document that
    /// could not be read is passed over and changes nothing; one that
    /// could becomes the template of its name. Tells whether it was
    /// taken in.
    pub fn add(&mut self, name: String, parsed: Option<GodConfig>) -> (added: bool)
        ensures
            added == parsed.is_some(),
            final(self)@ == match parsed {
                Some(config) => old(self)@.insert(name@, config@),
                None => old(self)@,
            },
    {
        match parsed {
            Some(config) => {
                self.entries.push((name, config));
                assert(self.entries@.drop_last() =~= old(self).entries@);
                true
            },
            None => false,
        }
    }

    /// The template of a name, where there is one.
    pub fn get(&self, name: &str) -> (found: Option<&GodConfig>)
        ensures
            found.is_some() == self@.contains_key(name@),
            found.is_some() ==> found.unwrap()@ == self@[name@],
    {
        let wanted = name.to_owned();
        let mut i: usize = self.entries.len();
        while i > 0
            invariant
                i <= self.entries.len(),
                wanted@ == name@,
                forall|j: int|
                    i <= j < self.entries.len() ==> (#[trigger] self.entries@[j]).0@ != name@,
            decreases i,
        {
            i -= 1;
            if self.entries[i].0 == wanted {
                proof {
                    library_of_front(self.entries@, i + 1, name@);
                    assert(self.entries@.take(i + 1).drop_last() =~= self.entries@.take(i as int));
                    assert(self.entries@.take(i + 1).last() == self.entries@[i as int]);
                }
                return Some(&self.entries[i].1);
            }
        }
        proof {
            library_of_front(self.entries@, 0, name@);
            assert(self.entries@.take(0) =~= Seq::<(String, GodConfig)>::empty());
        }
        None
    }
}

} // verus!
