//! 256-bit words (topics, amounts) and 160-bit account addresses, held as
//! byte vectors. The mathematical model of a word is the unsigned number
//! its bytes denote in big-endian order.

use vstd::prelude::*;

verus! {

/// 256 raised to `n`.
pub open spec fn pow256(n: nat) -> nat
    decreases n,
{
    if n == 0 {
        1
    } else {
        256 * pow256((n - 1) as nat)
    }
}

/// The unsigned number a big-endian byte string denotes.
pub open spec fn be_val(s: Seq<u8>) -> nat
    decreases s.len(),
{
    if s.len() == 0 {
        0
    } else {
        (s[0] as nat) * pow256((s.len() - 1) as nat) + be_val(s.skip(1))
    }
}

pub proof fn lemma_pow256_pos(n: nat)
    ensures
        pow256(n) >= 1,
    decreases n,
{
    if n > 0 {
        lemma_pow256_pos((n - 1) as nat);
    }
}

/// A string of `n` bytes denotes a number below `256^n`.
pub proof fn lemma_be_val_bound(s: Seq<u8>)
    ensures
        be_val(s) < pow256(s.len()),
    decreases s.len(),
{
    if s.len() > 0 {
        lemma_be_val_bound(s.skip(1));
        let p = pow256((s.len() - 1) as nat);
        let x = s[0] as nat;
        lemma_pow256_pos((s.len() - 1) as nat);
        assert(x * p + p <= 256 * p) by (nonlinear_arith)
            requires
                x <= 255,
                p >= 1,
        ;
        assert(be_val(s) < x * p + p);
    }
}

/// Equal-length byte strings order numerically as they order
/// lexicographically: if they agree before `i` and the first holds the
/// smaller byte at `i`, the first denotes the smaller number.
pub proof fn lemma_be_val_lt(a: Seq<u8>, b: Seq<u8>, i: int)
    requires
        a.len() == b.len(),
        0 <= i < a.len(),
        forall|j: int| 0 <= j < i ==> a[j] == b[j],
        a[i] < b[i],
    ensures
        be_val(a) < be_val(b),
    decreases i,
{
    let p = pow256((a.len() - 1) as nat);
    if i == 0 {
        lemma_be_val_bound(a.skip(1));
        lemma_pow256_pos((a.len() - 1) as nat);
        let x = a[0] as nat;
        let y = b[0] as nat;
        assert(x * p + p <= y * p) by (nonlinear_arith)
            requires
                x + 1 <= y,
                p >= 1,
        ;
        assert(be_val(a) < x * p + p);
        assert(be_val(b) >= y * p);
    } else {
        assert forall|j: int| 0 <= j < i - 1 implies a.skip(1)[j] == b.skip(1)[j] by {
            assert(a[j + 1] == b[j + 1]);
        }
        assert(a.skip(1)[i - 1] == a[i]);
        assert(b.skip(1)[i - 1] == b[i]);
        lemma_be_val_lt(a.skip(1), b.skip(1), i - 1);
        assert(a[0] == b[0]);
    }
}

/// A byte string denotes zero exactly where every byte is zero.
pub proof fn lemma_be_val_zero(s: Seq<u8>)
    ensures
        (be_val(s) == 0) <==> (forall|i: int| 0 <= i < s.len() ==> s[i] == 0),
    decreases s.len(),
{
    if s.len() > 0 {
        lemma_be_val_zero(s.skip(1));
        let p = pow256((s.len() - 1) as nat);
        lemma_pow256_pos((s.len() - 1) as nat);
        let x = s[0] as nat;
        if be_val(s) == 0 {
            assert(x * p == 0);
            assert(x == 0) by (nonlinear_arith)
                requires
                    x * p == 0,
                    p >= 1,
            ;
            assert forall|i: int| 0 <= i < s.len() implies s[i] == 0 by {
                if i > 0 {
                    assert(s.skip(1)[i - 1] == 0);
                }
            }
        }
        if forall|i: int| 0 <= i < s.len() ==> s[i] == 0 {
            assert forall|i: int| 0 <= i < s.skip(1).len() implies s.skip(1)[i] == 0 by {
                assert(s[i + 1] == 0);
            }
            assert(be_val(s.skip(1)) == 0);
            assert(x == 0);
        }
    }
}

/// A 32-byte EVM word: an event topic or an unsigned 256-bit amount.
#[derive(Debug)]
pub struct Word {
    bytes: Vec<u8>,
}

impl View for Word {
    type V = Seq<u8>;

    closed spec fn view(&self) -> Seq<u8> {
        self.bytes@
    }
}

/// A 20-byte account address.
#[derive(Debug)]
pub struct Address {
    bytes: Vec<u8>,
}

impl View for Address {
    type V = Seq<u8>;

    closed spec fn view(&self) -> Seq<u8> {
        self.bytes@
    }
}

/// The 32-byte topic that carries a 20-byte address, left-padded with
/// twelve zero bytes.
pub open spec fn address_topic(a: Seq<u8>) -> Seq<u8> {
    Seq::new(32, |i: int| if i < 12 { 0u8 } else { a[i - 12] })
}

/// The word is shaped like an address-bearing topic: its first twelve
/// bytes are zero.
pub open spec fn is_address_topic(w: Seq<u8>) -> bool {
    w.len() == 32 && forall|i: int| 0 <= i < 12 ==> w[i] == 0
}

/// A fresh vector holding the same bytes.
pub fn copy_bytes(v: &Vec<u8>) -> (r: Vec<u8>)
    ensures
        r@ == v@,
{
    let mut out: Vec<u8> = Vec::new();
    let mut i: usize = 0;
    while i < v.len()
        invariant
            i <= v@.len(),
            out@ == v@.take(i as int),
        decreases v@.len() - i,
    {
        out.push(v[i]);
        assert(out@ =~= v@.take(i + 1 as int));
        i = i + 1;
    }
    assert(out@ =~= v@);
    out
}

/// Appends all of `src` to `dst`.
pub fn append_bytes(dst: &mut Vec<u8>, src: &Vec<u8>)
    ensures
        final(dst)@ == old(dst)@ + src@,
{
    let ghost orig = dst@;
    let mut i: usize = 0;
    while i < src.len()
        invariant
            i <= src@.len(),
            dst@ == orig + src@.take(i as int),
        decreases src@.len() - i,
    {
        dst.push(src[i]);
        assert(dst@ =~= orig + src@.take(i + 1 as int));
        i = i + 1;
    }
    assert(dst@ =~= orig + src@);
}

impl Word {
    /// Exactly 32 bytes.
    pub open spec fn wf(self) -> bool {
        self@.len() == 32
    }

    /// The unsigned number this word denotes.
    pub open spec fn val(self) -> nat {
        be_val(self@)
    }

    /// Wraps exactly 32 bytes; anything else is refused.
    pub fn new(bytes: Vec<u8>) -> (r: Option<Word>)
        ensures
            r is Some <==> bytes@.len() == 32,
            r matches Some(w) ==> w@ == bytes@ && w.wf(),
    {
        if bytes.len() == 32 {
            Some(Word { bytes })
        } else {
            None
        }
    }

    /// Wraps bytes already known to number exactly 32.
    pub fn from_exact(bytes: Vec<u8>) -> (r: Word)
        requires
            bytes@.len() == 32,
        ensures
            r@ == bytes@,
            r.wf(),
    {
        Word { bytes }
    }

    pub fn byte_at(&self, i: usize) -> (r: u8)
        requires
            self.wf(),
            i < 32,
        ensures
            r == self@[i as int],
    {
        self.bytes[i]
    }

    pub fn as_bytes(&self) -> (r: &Vec<u8>)
        ensures
            r@ == self@,
    {
        &self.bytes
    }

    pub fn duplicate(&self) -> (r: Word)
        ensures
            r@ == self@,
    {
        Word { bytes: copy_bytes(&self.bytes) }
    }

    pub fn eq_word(&self, other: &Word) -> (r: bool)
        requires
            self.wf(),
            other.wf(),
        ensures
            r == (self@ == other@),
    {
        let mut i: usize = 0;
        while i < 32
            invariant
                self.wf(),
                other.wf(),
                i <= 32,
                forall|j: int| 0 <= j < i ==> self@[j] == other@[j],
            decreases 32 - i,
        {
            let a = self.bytes[i];
            let b = other.bytes[i];
            if a != b {
                assert(self@[i as int] != other@[i as int]);
                return false;
            }
            i = i + 1;
        }
        proof {
            assert(self@ =~= other@);
        }
        true
    }

    /// Numeric comparison, byte by byte from the most significant end.
    pub fn ge(&self, other: &Word) -> (r: bool)
        requires
            self.wf(),
            other.wf(),
        ensures
            r == (self.val() >= other.val()),
    {
        let mut i: usize = 0;
        while i < 32
            invariant
                self.wf(),
                other.wf(),
                i <= 32,
                forall|j: int| 0 <= j < i ==> self@[j] == other@[j],
            decreases 32 - i,
        {
            let a = self.bytes[i];
            let b = other.bytes[i];
            if a > b {
                proof {
                    lemma_be_val_lt(other@, self@, i as int);
                }
                return true;
            }
            if a < b {
                proof {
                    lemma_be_val_lt(self@, other@, i as int);
                }
                return false;
            }
            i = i + 1;
        }
        proof {
            assert(self@ =~= other@);
        }
        true
    }

    /// The word denotes zero.
    pub fn is_zero(&self) -> (r: bool)
        requires
            self.wf(),
        ensures
            r == (self.val() == 0),
    {
        let mut i: usize = 0;
        while i < 32
            invariant
                self.wf(),
                i <= 32,
                forall|j: int| 0 <= j < i ==> self@[j] == 0,
            decreases 32 - i,
        {
            if self.bytes[i] != 0 {
                proof {
                    lemma_be_val_zero(self@);
                }
                return false;
            }
            i = i + 1;
        }
        proof {
            lemma_be_val_zero(self@);
        }
        true
    }

    /// The first twelve bytes are zero, so the word can carry an address.
    pub fn has_address_padding(&self) -> (r: bool)
        requires
            self.wf(),
        ensures
            r == is_address_topic(self@),
    {
        let mut i: usize = 0;
        while i < 12
            invariant
                self.wf(),
                i <= 12,
                forall|j: int| 0 <= j < i ==> self@[j] == 0,
            decreases 12 - i,
        {
            if self.bytes[i] != 0 {
                return false;
            }
            i = i + 1;
        }
        true
    }

    /// The trailing 20 bytes, as an address.
    pub fn to_address(&self) -> (r: Address)
        requires
            self.wf(),
        ensures
            r.wf(),
            r@ == self@.skip(12),
    {
        let mut out: Vec<u8> = Vec::new();
        let mut i: usize = 12;
        while i < 32
            invariant
                self.wf(),
                12 <= i <= 32,
                out@ == self@.subrange(12, i as int),
            decreases 32 - i,
        {
            out.push(self.bytes[i]);
            assert(out@ =~= self@.subrange(12, i + 1 as int));
            i = i + 1;
        }
        assert(out@ =~= self@.skip(12));
        Address { bytes: out }
    }
}

impl Address {
    /// Exactly 20 bytes.
    pub open spec fn wf(self) -> bool {
        self@.len() == 20
    }

    /// Wraps exactly 20 bytes; anything else is refused.
    pub fn new(bytes: Vec<u8>) -> (r: Option<Address>)
        ensures
            r is Some <==> bytes@.len() == 20,
            r matches Some(a) ==> a@ == bytes@ && a.wf(),
    {
        if bytes.len() == 20 {
            Some(Address { bytes })
        } else {
            None
        }
    }

    /// Wraps bytes already known to number exactly 20.
    pub fn from_exact(bytes: Vec<u8>) -> (r: Address)
        requires
            bytes@.len() == 20,
        ensures
            r@ == bytes@,
            r.wf(),
    {
        Address { bytes }
    }

    pub fn as_bytes(&self) -> (r: &Vec<u8>)
        ensures
            r@ == self@,
    {
        &self.bytes
    }

    pub fn duplicate(&self) -> (r: Address)
        ensures
            r@ == self@,
    {
        Address { bytes: copy_bytes(&self.bytes) }
    }

    pub fn eq_address(&self, other: &Address) -> (r: bool)
        requires
            self.wf(),
            other.wf(),
        ensures
            r == (self@ == other@),
    {
        let mut i: usize = 0;
        while i < 20
            invariant
                self.wf(),
                other.wf(),
                i <= 20,
                forall|j: int| 0 <= j < i ==> self@[j] == other@[j],
            decreases 20 - i,
        {
            let a = self.bytes[i];
            let b = other.bytes[i];
            if a != b {
                assert(self@[i as int] != other@[i as int]);
                return false;
            }
            i = i + 1;
        }
        proof {
            assert(self@ =~= other@);
        }
        true
    }

    /// The 32-byte topic encoding of this address: twelve zero bytes, then
    /// the address.
    pub fn to_topic(&self) -> (r: Word)
        requires
            self.wf(),
        ensures
            r.wf(),
            r@ == address_topic(self@),
    {
        let mut out: Vec<u8> = Vec::new();
        let mut i: usize = 0;
        while i < 12
            invariant
                i <= 12,
                out@.len() == i,
                forall|j: int| 0 <= j < i ==> out@[j] == 0,
            decreases 12 - i,
        {
            out.push(0);
            i = i + 1;
        }
        let mut k: usize = 0;
        while k < 20
            invariant
                self.wf(),
                k <= 20,
                out@.len() == 12 + k,
                forall|j: int| 0 <= j < 12 ==> out@[j] == 0,
                forall|j: int| 12 <= j < 12 + k ==> out@[j] == self@[j - 12],
            decreases 20 - k,
        {
            out.push(self.bytes[k]);
            k = k + 1;
        }
        assert(out@ =~= address_topic(self@));
        Word { bytes: out }
    }
}

} // verus!
