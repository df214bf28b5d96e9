//! The identity of a cell: one application run by one agent.

use crate::hash::{hex_text, lemma_hex_injective, lemma_hex_len, lemma_hex_no_hyphen};
use crate::hash::{Address, AgentPubKey, DnaHash};
use vstd::prelude::*;
use vstd::std_specs::cmp::PartialEqSpecImpl;
use vstd::string::*;

verus! {

/// The composite key of a cell: the application's hash and the agent's key.
/// It never changes once made, and two ids are equal when both parts are.
#[derive(Debug, Hash)]
pub struct CellId {
    dna_hash: DnaHash,
    agent_pubkey: AgentPubKey,
}

impl View for CellId {
    type V = (Seq<u8>, Seq<u8>);

    closed spec fn view(&self) -> (Seq<u8>, Seq<u8>) {
        (self.dna_hash@, self.agent_pubkey@)
    }
}

/// The text of a cell id: `cell-`, the application's hash in hexadecimal, a
/// hyphen, and the agent's key in hexadecimal.
pub open spec fn cell_id_text(id: (Seq<u8>, Seq<u8>)) -> Seq<char> {
    "cell-"@ + hex_text(id.0) + "-"@ + hex_text(id.1)
}

impl CellId {
    pub fn new(dna_hash: DnaHash, agent_pubkey: AgentPubKey) -> (r: CellId)
        ensures
            r@ == (dna_hash@, agent_pubkey@),
    {
        CellId { dna_hash, agent_pubkey }
    }

    pub fn dna_hash(&self) -> (r: &DnaHash)
        ensures
            r@ == self@.0,
    {
        &self.dna_hash
    }

    pub fn agent_pubkey(&self) -> (r: &AgentPubKey)
        ensures
            r@ == self@.1,
    {
        &self.agent_pubkey
    }

    /// The id as text, as it stands in storage paths.
    pub fn to_string(&self) -> (r: String)
        ensures
            r@ == cell_id_text(self@),
    {
        let mut out = String::from_str("cell-");
        out.append(self.dna_hash.to_hex().as_str());
        out.append("-");
        out.append(self.agent_pubkey.to_hex().as_str());
        out
    }
}

impl Clone for CellId {
    fn clone(&self) -> (r: Self)
        ensures
            r@ == self@,
    {
        CellId { dna_hash: self.dna_hash.clone(), agent_pubkey: self.agent_pubkey.clone() }
    }
}

impl PartialEq for CellId {
    fn eq(&self, other: &Self) -> (r: bool) {
        self.dna_hash == other.dna_hash && self.agent_pubkey == other.agent_pubkey
    }
}

impl Eq for CellId {

}

impl PartialEqSpecImpl for CellId {
    open spec fn obeys_eq_spec() -> bool {
        true
    }

    open spec fn eq_spec(&self, other: &Self) -> bool {
        self@ == other@
    }
}

/// Equal ids are written as equal texts, and different ids as different
/// texts.
pub proof fn lemma_cell_id_text_injective(a: (Seq<u8>, Seq<u8>), b: (Seq<u8>, Seq<u8>))
    ensures
        cell_id_text(a) == cell_id_text(b) <==> a == b,
{
    if cell_id_text(a) == cell_id_text(b) {
        reveal_strlit("cell-");
        reveal_strlit("-");
        let ta = cell_id_text(a);
        let tb = cell_id_text(b);
        let la = hex_text(a.0).len() as int;
        let lb = hex_text(b.0).len() as int;
        lemma_hex_len(a.0);
        lemma_hex_len(b.0);
        lemma_hex_len(a.1);
        lemma_hex_len(b.1);
        assert(ta[5 + la] == '-');
        assert(tb[5 + lb] == '-');
        if la < lb {
            assert(tb[5 + la] == hex_text(b.0)[la]);
            lemma_hex_no_hyphen(b.0, la);
        }
        if lb < la {
            assert(ta[5 + lb] == hex_text(a.0)[lb]);
            lemma_hex_no_hyphen(a.0, lb);
        }
        assert(hex_text(a.0) =~= ta.subrange(5, 5 + la));
        assert(hex_text(b.0) =~= tb.subrange(5, 5 + lb));
        lemma_hex_injective(a.0, b.0);
        assert(hex_text(a.1) =~= ta.subrange(6 + la, ta.len() as int));
        assert(hex_text(b.1) =~= tb.subrange(6 + lb, tb.len() as int));
        lemma_hex_injective(a.1, b.1);
    }
}

} // verus!
