//! Content addresses: the hashes by which applications, agents and chain
//! entries are known. The engine never computes one; it compares them and
//! writes them out.

use vstd::prelude::*;
use vstd::std_specs::cmp::PartialEqSpecImpl;
use vstd::string::*;

verus! {

/// The bytes of a hash.
#[derive(Debug, Hash)]
pub struct Address {
    bytes: Vec<u8>,
}

/// The hash of an application's code and properties.
pub type DnaHash = Address;

/// The public key of an agent.
pub type AgentPubKey = Address;

/// The hash under which a chain entry is stored.
pub type HeaderHash = Address;

impl View for Address {
    type V = Seq<u8>;

    closed spec fn view(&self) -> Seq<u8> {
        self.bytes@
    }
}

impl Address {
    pub fn new(bytes: Vec<u8>) -> (r: Address)
        ensures
            r@ == bytes@,
    {
        Address { bytes }
    }

    pub fn as_bytes(&self) -> (r: &Vec<u8>)
        ensures
            r@ == self@,
    {
        &self.bytes
    }

    pub fn into_inner(self) -> (r: Vec<u8>)
        ensures
            r@ == self@,
    {
        self.bytes
    }

    /// The address in lower-case hexadecimal, two characters for each byte.
    pub fn to_hex(&self) -> (r: String)
        ensures
            r@ == hex_text(self@),
    {
        let mut out = String::new();
        let mut i: usize = 0;
        assert(self.bytes@.take(0) =~= Seq::<u8>::empty());
        while i < self.bytes.len()
            invariant
                i <= self.bytes@.len(),
                out@ == hex_text(self.bytes@.take(i as int)),
            decreases self.bytes@.len() - i,
        {
            let b: u8 = self.bytes[i];
            out.append(hex_digit_str(b / 16));
            out.append(hex_digit_str(b % 16));
            proof {
                let next = self.bytes@.take(i + 1);
                assert(next.drop_last() =~= self.bytes@.take(i as int));
                assert(next.last() == b);
                assert(out@ =~= hex_text(next));
            }
            i = i + 1;
        }
        assert(self.bytes@.take(i as int) =~= self.bytes@);
        out
    }
}

impl Clone for Address {
    fn clone(&self) -> (r: Self)
        ensures
            r@ == self@,
    {
        let bytes = self.bytes.clone();
        assert(bytes@ =~= self.bytes@);
        Address { bytes }
    }
}

impl PartialEq for Address {
    fn eq(&self, other: &Self) -> (r: bool) {
        if self.bytes.len() != other.bytes.len() {
            return false;
        }
        let mut i: usize = 0;
        while i < self.bytes.len()
            invariant
                self.bytes@.len() == other.bytes@.len(),
                i <= self.bytes@.len(),
                forall|j: int| 0 <= j < i ==> self.bytes@[j] == other.bytes@[j],
            decreases self.bytes@.len() - i,
        {
            if self.bytes[i] != other.bytes[i] {
                return false;
            }
            i = i + 1;
        }
        assert(self.bytes@ =~= other.bytes@);
        true
    }
}

impl Eq for Address {

}

impl PartialEqSpecImpl for Address {
    open spec fn obeys_eq_spec() -> bool {
        true
    }

    open spec fn eq_spec(&self, other: &Self) -> bool {
        self@ == other@
    }
}

/// The character of a hexadecimal digit.
pub open spec fn hex_char(d: int) -> char {
    if d == 0 {
        '0'
    } else if d == 1 {
        '1'
    } else if d == 2 {
        '2'
    } else if d == 3 {
        '3'
    } else if d == 4 {
        '4'
    } else if d == 5 {
        '5'
    } else if d == 6 {
        '6'
    } else if d == 7 {
        '7'
    } else if d == 8 {
        '8'
    } else if d == 9 {
        '9'
    } else if d == 10 {
        'a'
    } else if d == 11 {
        'b'
    } else if d == 12 {
        'c'
    } else if d == 13 {
        'd'
    } else if d == 14 {
        'e'
    } else {
        'f'
    }
}

/// Bytes in hexadecimal: for each byte its high digit, then its low digit.
pub open spec fn hex_text(bytes: Seq<u8>) -> Seq<char>
    decreases bytes.len(),
{
    if bytes.len() == 0 {
        Seq::empty()
    } else {
        hex_text(bytes.drop_last()).push(hex_char(bytes.last() as int / 16)).push(
            hex_char(bytes.last() as int % 16),
        )
    }
}

fn hex_digit_str(d: u8) -> (s: &'static str)
    requires
        d < 16,
    ensures
        s@ == seq![hex_char(d as int)],
{
    proof {
        reveal_strlit("0");
        reveal_strlit("1");
        reveal_strlit("2");
        reveal_strlit("3");
        reveal_strlit("4");
        reveal_strlit("5");
        reveal_strlit("6");
        reveal_strlit("7");
        reveal_strlit("8");
        reveal_strlit("9");
        reveal_strlit("a");
        reveal_strlit("b");
        reveal_strlit("c");
        reveal_strlit("d");
        reveal_strlit("e");
        reveal_strlit("f");
    }
    let s = if d == 0 {
        "0"
    } else if d == 1 {
        "1"
    } else if d == 2 {
        "2"
    } else if d == 3 {
        "3"
    } else if d == 4 {
        "4"
    } else if d == 5 {
        "5"
    } else if d == 6 {
        "6"
    } else if d == 7 {
        "7"
    } else if d == 8 {
        "8"
    } else if d == 9 {
        "9"
    } else if d == 10 {
        "a"
    } else if d == 11 {
        "b"
    } else if d == 12 {
        "c"
    } else if d == 13 {
        "d"
    } else if d == 14 {
        "e"
    } else {
        "f"
    };
    assert(s@ =~= seq![hex_char(d as int)]);
    s
}

/// The hexadecimal text is twice as long as the bytes.
pub proof fn lemma_hex_len(bytes: Seq<u8>)
    ensures
        hex_text(bytes).len() == 2 * bytes.len(),
    decreases bytes.len(),
{
    if bytes.len() > 0 {
        lemma_hex_len(bytes.drop_last());
    }
}

/// A hexadecimal text holds hexadecimal digits only: no hyphen stands in it.
pub proof fn lemma_hex_no_hyphen(bytes: Seq<u8>, i: int)
    requires
        0 <= i < hex_text(bytes).len(),
    ensures
        hex_text(bytes)[i] != '-',
    decreases bytes.len(),
{
    lemma_hex_len(bytes);
    if bytes.len() > 0 {
        lemma_hex_len(bytes.drop_last());
        if i < 2 * (bytes.len() - 1) {
            lemma_hex_no_hyphen(bytes.drop_last(), i);
        }
    }
}

/// Different bytes are written differently.
pub proof fn lemma_hex_injective(a: Seq<u8>, b: Seq<u8>)
    requires
        hex_text(a) == hex_text(b),
    ensures
        a == b,
    decreases a.len(),
{
    lemma_hex_len(a);
    lemma_hex_len(b);
    if a.len() > 0 {
        let ha = hex_text(a);
        let hb = hex_text(b);
        let n = ha.len() as int;
        lemma_hex_len(a.drop_last());
        lemma_hex_len(b.drop_last());
        assert(ha[n - 2] == hex_char(a.last() as int / 16));
        assert(ha[n - 1] == hex_char(a.last() as int % 16));
        assert(hb[n - 2] == hex_char(b.last() as int / 16));
        assert(hb[n - 1] == hex_char(b.last() as int % 16));
        assert(a.last() == b.last());
        assert(hex_text(a.drop_last()) =~= ha.take(n - 2));
        assert(hex_text(b.drop_last()) =~= hb.take(n - 2));
        lemma_hex_injective(a.drop_last(), b.drop_last());
        assert(a =~= a.drop_last().push(a.last()));
        assert(b =~= b.drop_last().push(b.last()));
    } else {
        assert(a =~= b);
    }
}

} // verus!
