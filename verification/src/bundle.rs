//! The commit bundle: the staging area of one invocation.
//!
//! A bundle is made when an invocation starts and holds the chain head that was
//! current then. Entries that the guest proposes are staged in it, in order.
//! Nothing in it is durable: it is consumed once, by the commit that appends
//! its entries to the chain, or dropped without a trace.

use crate::chain::{chain_head, entry_views, lemma_entry_views_push, ChainEntry, EntryView};
use crate::hash::HeaderHash;
use vstd::prelude::*;

verus! {

/// An ordered sequence of proposed chain entries, with the chain head that the
/// proposer believed current.
#[derive(Debug)]
pub struct SourceChainCommitBundle {
    captured_head: Option<HeaderHash>,
    entries: Vec<ChainEntry>,
}

/// A bundle as a plain value.
pub struct BundleView {
    pub captured_head: Option<Seq<u8>>,
    pub entries: Seq<EntryView>,
}

/// An optional address as a plain value.
pub open spec fn head_view(head: Option<HeaderHash>) -> Option<Seq<u8>> {
    match head {
        Some(h) => Some(h@),
        None => None,
    }
}

impl BundleView {
    /// The head that the proposer sees: the address of the entry staged last,
    /// or the captured head while nothing is staged.
    pub open spec fn tip(self) -> Option<Seq<u8>> {
        if self.entries.len() == 0 {
            self.captured_head
        } else {
            chain_head(self.entries)
        }
    }
}

impl View for SourceChainCommitBundle {
    type V = BundleView;

    closed spec fn view(&self) -> BundleView {
        BundleView {
            captured_head: head_view(self.captured_head),
            entries: entry_views(self.entries@),
        }
    }
}

impl SourceChainCommitBundle {
    /// An empty bundle on top of the given head.
    pub fn new(captured_head: Option<HeaderHash>) -> (r: SourceChainCommitBundle)
        ensures
            r@.captured_head == head_view(captured_head),
            r@.entries == Seq::<EntryView>::empty(),
    {
        let r = SourceChainCommitBundle { captured_head, entries: Vec::new() };
        assert(r@.entries =~= Seq::<EntryView>::empty());
        r
    }

    /// Stages one more entry behind those already staged.
    pub fn stage(&mut self, entry: ChainEntry)
        ensures
            final(self)@.captured_head == old(self)@.captured_head,
            final(self)@.entries == old(self)@.entries.push(entry@),
    {
        proof {
            lemma_entry_views_push(self.entries@, entry);
        }
        self.entries.push(entry);
    }

    /// The chain head that was current when the bundle was made.
    pub fn captured_head(&self) -> (r: Option<&HeaderHash>)
        ensures
            match r {
                Some(h) => self@.captured_head == Some(h@),
                None => self@.captured_head is None,
            },
    {
        self.captured_head.as_ref()
    }

    /// The staged entries, in the order in which they were staged.
    pub fn entries(&self) -> (r: &Vec<ChainEntry>)
        ensures
            entry_views(r@) == self@.entries,
    {
        &self.entries
    }

    pub fn len(&self) -> (r: usize)
        ensures
            r == self@.entries.len(),
    {
        self.entries.len()
    }

    pub fn is_empty(&self) -> (r: bool)
        ensures
            r == (self@.entries.len() == 0),
    {
        self.entries.len() == 0
    }

    /// The bundle taken apart: the captured head and the staged entries.
    pub fn into_parts(self) -> (r: (Option<HeaderHash>, Vec<ChainEntry>))
        ensures
            head_view(r.0) == self@.captured_head,
            entry_views(r.1@) == self@.entries,
    {
        (self.captured_head, self.entries)
    }
}

} // verus!
