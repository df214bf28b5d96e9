//! Chain entries and the chain as a mathematical sequence.
//!
//! A source chain only grows: a commit appends entries behind those that are
//! there, and no entry is ever changed or taken away. The head of a chain is
//! the address of its last entry.

use crate::hash::HeaderHash;
use vstd::prelude::*;

verus! {

/// One entry of a source chain: its address and its serialized content.
#[derive(Debug)]
pub struct ChainEntry {
    address: HeaderHash,
    content: Vec<u8>,
}

/// An entry as a plain value.
pub struct EntryView {
    pub address: Seq<u8>,
    pub content: Seq<u8>,
}

impl View for ChainEntry {
    type V = EntryView;

    closed spec fn view(&self) -> EntryView {
        EntryView { address: self.address@, content: self.content@ }
    }
}

impl ChainEntry {
    pub fn new(address: HeaderHash, content: Vec<u8>) -> (r: ChainEntry)
        ensures
            r@ == (EntryView { address: address@, content: content@ }),
    {
        ChainEntry { address, content }
    }

    pub fn address(&self) -> (r: &HeaderHash)
        ensures
            r@ == self@.address,
    {
        &self.address
    }

    pub fn content(&self) -> (r: &Vec<u8>)
        ensures
            r@ == self@.content,
    {
        &self.content
    }
}

impl Clone for ChainEntry {
    fn clone(&self) -> (r: Self)
        ensures
            r@ == self@,
    {
        let content = self.content.clone();
        assert(content@ =~= self.content@);
        ChainEntry { address: self.address.clone(), content }
    }
}

/// The entries of a vector as plain values, in the same order.
pub open spec fn entry_views(entries: Seq<ChainEntry>) -> Seq<EntryView> {
    Seq::new(entries.len(), |i: int| entries[i]@)
}

/// The head of a chain: the address of its last entry, and nothing for the
/// empty chain.
pub open spec fn chain_head(chain: Seq<EntryView>) -> Option<Seq<u8>> {
    if chain.len() == 0 {
        None
    } else {
        Some(chain.last().address)
    }
}

/// The entry stored under an address: the earliest one of the chain that has
/// it.
pub open spec fn find_entry(chain: Seq<EntryView>, address: Seq<u8>) -> Option<EntryView>
    decreases chain.len(),
{
    if chain.len() == 0 {
        None
    } else {
        match find_entry(chain.drop_last(), address) {
            Some(found) => Some(found),
            None => if chain.last().address == address {
                Some(chain.last())
            } else {
                None
            },
        }
    }
}

/// What a snapshot shows of a chain: the entries that were there when the
/// snapshot was taken, and none that came later.
pub open spec fn snapshot(chain: Seq<EntryView>, visible: nat) -> Seq<EntryView> {
    if visible <= chain.len() {
        chain.take(visible as int)
    } else {
        chain
    }
}

/// The plain values of a vector that got one more entry.
pub proof fn lemma_entry_views_push(entries: Seq<ChainEntry>, entry: ChainEntry)
    ensures
        entry_views(entries.push(entry)) == entry_views(entries).push(entry@),
{
    assert(entry_views(entries.push(entry)) =~= entry_views(entries).push(entry@));
}

/// The plain values of two vectors, one behind the other.
pub proof fn lemma_entry_views_concat(first: Seq<ChainEntry>, second: Seq<ChainEntry>)
    ensures
        entry_views(first + second) == entry_views(first) + entry_views(second),
{
    assert(entry_views(first + second) =~= entry_views(first) + entry_views(second));
}

/// What is found in a chain is found, unchanged, in every chain that
/// continues it: a committed entry stays readable under its address.
pub proof fn lemma_find_entry_stable(chain: Seq<EntryView>, more: Seq<EntryView>, address: Seq<u8>)
    requires
        find_entry(chain, address) is Some,
    ensures
        find_entry(chain + more, address) == find_entry(chain, address),
    decreases more.len(),
{
    if more.len() == 0 {
        assert(chain + more =~= chain);
    } else {
        lemma_find_entry_stable(chain, more.drop_last(), address);
        assert((chain + more).drop_last() =~= chain + more.drop_last());
    }
}

/// An entry that is found has the address that was asked for and stands in
/// the chain.
pub proof fn lemma_find_entry_sound(chain: Seq<EntryView>, address: Seq<u8>)
    ensures
        match find_entry(chain, address) {
            Some(found) => found.address == address && chain.contains(found),
            None => forall|i: int| 0 <= i < chain.len() ==> (#[trigger] chain[i]).address != address,
        },
    decreases chain.len(),
{
    if chain.len() > 0 {
        lemma_find_entry_sound(chain.drop_last(), address);
        let prior = chain.drop_last();
        match find_entry(prior, address) {
            Some(found) => {
                let i = choose|i: int| 0 <= i < prior.len() && prior[i] == found;
                assert(chain[i] == found);
            },
            None => {
                if chain.last().address == address {
                    assert(chain[chain.len() - 1] == chain.last());
                } else {
                    assert forall|i: int| 0 <= i < chain.len() implies (#[trigger] chain[i]).address
                        != address by {
                        if i < prior.len() {
                            assert(prior[i] == chain[i]);
                        }
                    }
                }
            },
        }
    }
}

/// A snapshot shows after a commit what it showed before: the entries that a
/// later commit appends never come into its sight.
pub proof fn lemma_snapshot_isolation(chain: Seq<EntryView>, staged: Seq<EntryView>, visible: nat)
    requires
        visible <= chain.len(),
    ensures
        snapshot(chain + staged, visible) == snapshot(chain, visible),
        snapshot(chain + staged, chain.len()) == chain,
{
    assert((chain + staged).take(visible as int) =~= chain.take(visible as int));
    assert((chain + staged).take(chain.len() as int) =~= chain);
}

} // verus!
