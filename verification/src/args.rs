//! The arguments of a job as a preprocessor left them: a mapping from names
//! to values, kept in the order in which it was given.

use crate::text::same_text;
use vstd::prelude::*;

verus! {

/// The name and the value of each entry, as characters.
pub open spec fn entries_view(entries: Seq<(String, String)>) -> Seq<(Seq<char>, Seq<char>)> {
    Seq::new(entries.len(), |i: int| (entries[i].0@, entries[i].1@))
}

/// Whether no name stands in two entries.
pub open spec fn distinct_names(entries: Seq<(Seq<char>, Seq<char>)>) -> bool {
    forall|i: int, j: int|
        0 <= i < j < entries.len() ==> (#[trigger] entries[i]).0 != (#[trigger] entries[j]).0
}

/// The mapping that entries with distinct names stand for.
pub open spec fn entries_map(entries: Seq<(Seq<char>, Seq<char>)>) -> Map<Seq<char>, Seq<char>> {
    Map::new(
        |name: Seq<char>| exists|i: int| 0 <= i < entries.len() && (#[trigger] entries[i]).0 == name,
        |name: Seq<char>|
            entries[choose|i: int| 0 <= i < entries.len() && (#[trigger] entries[i]).0 == name].1,
    )
}

/// Preprocessed arguments: each name with its value as JSON text, no name
/// twice.
#[derive(Debug, Clone, PartialEq, Eq)]
pub struct PreprocessedArgs {
    entries: Vec<(String, String)>,
}

impl View for PreprocessedArgs {
    type V = Seq<(Seq<char>, Seq<char>)>;

    closed spec fn view(&self) -> Seq<(Seq<char>, Seq<char>)> {
        entries_view(self.entries@)
    }
}

impl PreprocessedArgs {
    /// No name stands in two entries.
    pub open spec fn well_formed(&self) -> bool {
        distinct_names(self@)
    }

    /// The mapping from names to values.
    pub open spec fn to_map(self) -> Map<Seq<char>, Seq<char>> {
        entries_map(self@)
    }

    /// The arguments with the given entries, if no name stands in two of
    /// them.
    pub fn from_entries(entries: Vec<(String, String)>) -> (args: Option<PreprocessedArgs>)
        ensures
            args is Some <==> distinct_names(entries_view(entries@)),
            args matches Some(a) ==> a@ == entries_view(entries@) && a.well_formed(),
    {
        let n = entries.len();
        let mut i: usize = 0;
        while i < n
            invariant
                n == entries.len(),
                i <= n,
                forall|a: int, b: int|
                    0 <= a < b < n && a < i ==> (#[trigger] entries_view(entries@)[a]).0 != (
                    #[trigger] entries_view(entries@)[b]).0,
            decreases n - i,
        {
            let mut j: usize = i + 1;
            while j < n
                invariant
                    n == entries.len(),
                    i < j <= n,
                    forall|b: int|
                        i < b < j ==> entries_view(entries@)[i as int].0 != (
                        #[trigger] entries_view(entries@)[b]).0,
                decreases n - j,
            {
                if same_text(entries[i].0.as_str(), entries[j].0.as_str()) {
                    assert(entries_view(entries@)[i as int].0 == entries_view(entries@)[j as int].0);
                    return None;
                }
                j = j + 1;
            }
            i = i + 1;
        }
        Some(PreprocessedArgs { entries })
    }

    /// The entries, in the order in which they were given.
    pub fn entries(&self) -> (entries: &Vec<(String, String)>)
        ensures
            entries_view(entries@) == self@,
    {
        &self.entries
    }

    /// The number of arguments.
    pub fn len(&self) -> (n: usize)
        ensures
            n == self@.len(),
    {
        self.entries.len()
    }
}

/// Every name of arguments stands for the value it was given with.
pub proof fn lemma_entries_map(entries: Seq<(Seq<char>, Seq<char>)>, i: int)
    requires
        distinct_names(entries),
        0 <= i < entries.len(),
    ensures
        entries_map(entries).dom().contains(entries[i].0),
        entries_map(entries)[entries[i].0] == entries[i].1,
{
    let name = entries[i].0;
    let k = choose|k: int| 0 <= k < entries.len() && (#[trigger] entries[k]).0 == name;
    if k < i {
        assert(entries[k].0 != entries[i].0);
    } else if i < k {
        assert(entries[i].0 != entries[k].0);
    }
}

} // verus!
