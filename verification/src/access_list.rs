//! The access list: the hostnames that the proxy refuses to reach.

use crate::text::{lines, same, split_lines, texts};
use vstd::prelude::*;

verus! {

/// A set of forbidden hostnames. It is made once and never changed.
#[derive(Clone, Debug)]
pub struct AccessList {
    hosts: Vec<String>,
}

impl View for AccessList {
    type V = Set<Seq<char>>;

    /// The forbidden hostnames.
    open spec fn view(&self) -> Set<Seq<char>> {
        self.entries().to_set()
    }
}

impl AccessList {
    /// The hostnames in the order in which the list was given.
    pub closed spec fn entries(&self) -> Seq<Seq<char>> {
        texts(self.hosts@)
    }

    /// A list of the given hostnames.
    pub fn new(hosts: Vec<String>) -> (list: AccessList)
        ensures
            list.entries() == texts(hosts@),
    {
        AccessList { hosts }
    }

    /// Whether the hostname is on the list. The match is exact: no wildcard,
    /// no subdomain, no folding of case.
    pub fn contains(&self, host: &str) -> (found: bool)
        ensures
            found == self@.contains(host@),
    {
        let mut i: usize = 0;
        while i < self.hosts.len()
            invariant
                i <= self.hosts@.len(),
                forall|j: int| 0 <= j < i ==> self.entries()[j] != host@,
            decreases self.hosts@.len() - i,
        {
            if same(self.hosts[i].as_str(), host) {
                assert(self.entries()[i as int] == host@);
                return true;
            }
            i += 1;
        }
        false
    }

    /// The number of entries, repeated ones counted each time.
    pub fn len(&self) -> (n: usize)
        ensures
            n == self.entries().len(),
    {
        self.hosts.len()
    }
}

/// Reads an access list from the text of its source: one hostname per line.
pub fn parse_blacklist(text: &str) -> (list: AccessList)
    ensures
        list.entries() == lines(text@),
        list@ == lines(text@).to_set(),
{
    AccessList::new(split_lines(text))
}

/// A host is refused by a list read from a text exactly if it is one of the
/// text's lines.
pub proof fn lemma_listed_iff_line(list: AccessList, text: Seq<char>, host: Seq<char>)
    requires
        list.entries() == lines(text),
    ensures
        list@.contains(host) <==> lines(text).contains(host),
{
}

} // verus!
