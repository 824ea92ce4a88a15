//! Status documents: the tree of values that a peer sends in answer to a
//! request, as far as the harness reads it.

use vstd::prelude::*;
use crate::text::same_text;

verus! {

/// A status document.
///
/// The harness reads strings, lists and records; whatever else a document
/// holds (a number, a truth value, nothing) is `Other`.
#[derive(Debug, PartialEq, Eq)]
pub enum Document {
    /// A string.
    Text(String),
    /// A list of documents.
    List(Vec<Document>),
    /// A record: named members, in their order.
    Record(Vec<(String, Document)>),
    /// Anything else.
    Other,
}

/// The first member named `key` among `members`, if there is one.
pub open spec fn find_member(members: Seq<(String, Document)>, key: Seq<char>) -> Option<Document>
    decreases members.len(),
{
    if members.len() == 0 {
        None
    } else if members[0].0@ == key {
        Some(members[0].1)
    } else {
        find_member(members.drop_first(), key)
    }
}

impl Document {
    /// The member named `key`, where the document is a record that has one.
    pub open spec fn member(self, key: Seq<char>) -> Option<Document> {
        match self {
            Document::Record(members) => find_member(members@, key),
            _ => None,
        }
    }

    /// The member named `key`; `Other` where the document is no record or
    /// has no such member.
    pub open spec fn at(self, key: Seq<char>) -> Document {
        match self.member(key) {
            Some(found) => found,
            None => Document::Other,
        }
    }

    /// The characters of the document, where it is a string.
    pub open spec fn text(self) -> Option<Seq<char>> {
        match self {
            Document::Text(s) => Some(s@),
            _ => None,
        }
    }

    /// The items of the document, where it is a list.
    pub open spec fn items(self) -> Option<Seq<Document>> {
        match self {
            Document::List(items) => Some(items@),
            _ => None,
        }
    }

    /// The member named `key`, where the document is a record that has one.
    pub fn get(&self, key: &str) -> (found: Option<&Document>)
        ensures
            match found {
                Some(d) => self.member(key@) == Some(*d),
                None => self.member(key@) is None,
            },
    {
        match self {
            Document::Record(members) => {
                let n = members.len();
                let mut i: usize = 0;
                assert(members@.skip(0) =~= members@);
                while i < n
                    invariant
                        i <= n,
                        n == members@.len(),
                        self.member(key@) == find_member(members@, key@),
                        find_member(members@, key@) == find_member(members@.skip(i as int), key@),
                    decreases n - i,
                {
                    let ghost rest = members@.skip(i as int);
                    assert(rest.drop_first() =~= members@.skip(i + 1));
                    if same_text(members[i].0.as_str(), key) {
                        return Some(&members[i].1);
                    }
                    i = i + 1;
                }
                None
            },
            _ => None,
        }
    }

    /// The string at the member `first` of the member `outer`, if there is
    /// one.
    pub fn text_at(&self, outer: &str, first: &str) -> (t: Option<String>)
        ensures
            crate::text::text_of(t) == self.at(outer@).at(first@).text(),
    {
        match self.get(outer) {
            Some(inner) => inner.text_in(first),
            None => None,
        }
    }

    /// The string at the member `key`, if there is one.
    pub fn text_in(&self, key: &str) -> (t: Option<String>)
        ensures
            crate::text::text_of(t) == self.at(key@).text(),
    {
        match self.get(key) {
            Some(Document::Text(s)) => Some(s.clone()),
            _ => None,
        }
    }

    /// The list at the member `first` of the member `outer`, if there is
    /// one.
    pub fn list_at(&self, outer: &str, first: &str) -> (l: Option<&Vec<Document>>)
        ensures
            match l {
                Some(items) => self.at(outer@).at(first@).items() == Some(items@),
                None => self.at(outer@).at(first@).items() is None,
            },
    {
        match self.get(outer) {
            Some(inner) => match inner.get(first) {
                Some(Document::List(items)) => Some(items),
                _ => None,
            },
            None => None,
        }
    }
}

} // verus!
