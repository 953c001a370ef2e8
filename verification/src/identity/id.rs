//! The identifier of a contact.

use std::cmp::Ordering;
use vstd::prelude::*;
use vstd::std_specs::cmp::PartialEqSpecImpl;
use vstd::std_specs::cmp::PartialOrdSpecImpl;

use crate::text::{hex_digit_of, hex_upper, push_char};

verus! {

/// Identifies a contact: the 32 bytes of the contact's public signing key.
/// Identifiers are ordered byte by byte.
#[derive(Debug, Clone, Copy, Hash, Eq, Ord)]
pub struct ContactId {
    key: [u8; 32],
}

/// `a` comes before `b` in byte-wise order: at the first place where they
/// differ, `a` holds the smaller byte. Meant for sequences of one length.
pub open spec fn precedes(a: Seq<u8>, b: Seq<u8>) -> bool {
    exists|i: int| first_difference(a, b, i) && a[i] < b[i]
}

/// `a` and `b` agree before place `i` and differ at it.
pub open spec fn first_difference(a: Seq<u8>, b: Seq<u8>, i: int) -> bool {
    &&& 0 <= i < a.len()
    &&& i < b.len()
    &&& a[i] != b[i]
    &&& forall|j: int| 0 <= j < i ==> a[j] == b[j]
}

/// The place of the first difference is unique.
pub proof fn lemma_first_difference_unique(a: Seq<u8>, b: Seq<u8>, i: int, k: int)
    requires
        first_difference(a, b, i),
        first_difference(a, b, k),
    ensures
        i == k,
{
    if i < k {
        assert(a[i] == b[i]);
    } else if k < i {
        assert(a[k] == b[k]);
    }
}

/// The byte-wise order is strict: nothing precedes itself, and of two
/// sequences at most one precedes the other.
pub proof fn lemma_precedes_asymmetric(a: Seq<u8>, b: Seq<u8>)
    ensures
        !(precedes(a, b) && precedes(b, a)),
        !precedes(a, a),
{
    if precedes(a, b) && precedes(b, a) {
        let i = choose|i: int| first_difference(a, b, i) && a[i] < b[i];
        let k = choose|k: int| first_difference(b, a, k) && b[k] < a[k];
        assert(first_difference(a, b, k));
        lemma_first_difference_unique(a, b, i, k);
    }
}

/// The byte-wise order is total on sequences of one length: two that differ
/// are ordered one way or the other.
pub proof fn lemma_precedes_total(a: Seq<u8>, b: Seq<u8>)
    requires
        a.len() == b.len(),
    ensures
        a == b || precedes(a, b) || precedes(b, a),
{
    if a =~= b {
    } else {
        assert(a.subrange(0, a.len() as int) =~= a);
        assert(b.subrange(0, a.len() as int) =~= b);
        let i = lemma_differing_sequences(a, b, a.len() as int);
        assert(first_difference(a, b, i));
        if a[i] < b[i] {
        } else {
            assert(first_difference(b, a, i));
        }
    }
}

/// Two sequences of one length that are not equal have a first difference.
proof fn lemma_differing_sequences(a: Seq<u8>, b: Seq<u8>, n: int) -> (i: int)
    requires
        a.len() == b.len(),
        0 <= n <= a.len(),
        a.subrange(0, n) != b.subrange(0, n),
    ensures
        first_difference(a, b, i),
    decreases n,
{
    if n == 0 {
        assert(a.subrange(0, 0) =~= b.subrange(0, 0));
        0
    } else if a.subrange(0, n - 1) =~= b.subrange(0, n - 1) {
        if a[n - 1] == b[n - 1] {
            assert(a.subrange(0, n) =~= a.subrange(0, n - 1).push(a[n - 1]));
            assert(b.subrange(0, n) =~= b.subrange(0, n - 1).push(b[n - 1]));
            assert(false);
        }
        assert forall|j: int| 0 <= j < n - 1 implies a[j] == b[j] by {
            assert(a.subrange(0, n - 1)[j] == b.subrange(0, n - 1)[j]);
        }
        n - 1
    } else {
        lemma_differing_sequences(a, b, n - 1)
    }
}

/// Where `a` holds the smaller byte at the first place of difference, `a`
/// precedes `b` and `b` does not precede `a`.
pub proof fn lemma_smaller_byte_first(a: Seq<u8>, b: Seq<u8>, i: usize)
    requires
        i < a.len(),
        i < b.len(),
        a[i as int] < b[i as int],
        forall|j: int| 0 <= j < i ==> a[j] == b[j],
    ensures
        precedes(a, b),
        !precedes(b, a),
        a != b,
{
    assert(first_difference(a, b, i as int));
    lemma_precedes_asymmetric(a, b);
}

/// The byte-wise order is transitive.
pub proof fn lemma_precedes_transitive(a: Seq<u8>, b: Seq<u8>, c: Seq<u8>)
    requires
        precedes(a, b),
        precedes(b, c),
    ensures
        precedes(a, c),
{
    let i = choose|i: int| first_difference(a, b, i) && a[i] < b[i];
    let k = choose|k: int| first_difference(b, c, k) && b[k] < c[k];
    let m = if i <= k {
        i
    } else {
        k
    };
    assert(first_difference(a, c, m));
}

/// Writes a public signing key as 64 upper-case hexadecimal digits.
pub fn format_key(key: &[u8; 32]) -> (text: String)
    ensures
        text@ == hex_upper(key@),
        text@.len() == 64,
{
    let mut buf = String::new();
    let mut i: usize = 0;
    while i < 32
        invariant
            i <= 32,
            buf@ == hex_upper(key@.subrange(0, i as int)),
        decreases 32 - i,
    {
        let b = key[i];
        push_char(&mut buf, hex_digit_of(b / 16));
        push_char(&mut buf, hex_digit_of(b % 16));
        assert(buf@ =~= hex_upper(key@.subrange(0, i + 1))) by {
            let before = key@.subrange(0, i as int);
            let after = key@.subrange(0, i + 1);
            assert forall|k: int| 0 <= k < 2 * i implies hex_upper(before)[k] == hex_upper(
                after,
            )[k] by {
                assert(before[k / 2] == after[k / 2]);
            }
        }
        i += 1;
    }
    assert(key@.subrange(0, 32) =~= key@);
    buf
}

impl ContactId {
    /// The text shown for an identifier: its key in hexadecimal.
    pub fn to_text(&self) -> (text: String)
        ensures
            text@ == hex_upper(self.bytes()),
            text@.len() == 64,
    {
        format_key(&self.key)
    }

    /// The key bytes that make up the identifier.
    pub closed spec fn bytes(&self) -> Seq<u8> {
        self.key@
    }

    /// An identifier holds 32 bytes, and two identifiers with the same bytes
    /// are the same identifier.
    pub proof fn lemma_bytes(self, other: ContactId)
        ensures
            self.bytes().len() == 32,
            self.bytes() == other.bytes() ==> self == other,
    {
        if self.bytes() == other.bytes() {
            assert(self.key@ =~= other.key@);
            assert(self.key == other.key);
        }
    }

    /// The identifier that a public signing key gives.
    pub fn from_key(key: [u8; 32]) -> (id: ContactId)
        ensures
            id.bytes() == key@,
    {
        ContactId { key }
    }

    /// The key bytes of the identifier.
    pub fn as_bytes(&self) -> (key: &[u8; 32])
        ensures
            key@ == self.bytes(),
    {
        &self.key
    }

    /// How `self` stands to `other` in byte-wise order.
    pub open spec fn ordering(&self, other: &ContactId) -> Ordering {
        if self.bytes() == other.bytes() {
            Ordering::Equal
        } else if precedes(self.bytes(), other.bytes()) {
            Ordering::Less
        } else {
            Ordering::Greater
        }
    }
}

impl PartialEq for ContactId {
    fn eq(&self, other: &Self) -> (same: bool) {
        let mut i: usize = 0;
        while i < 32
            invariant
                i <= 32,
                forall|j: int| 0 <= j < i ==> self.key@[j] == other.key@[j],
            decreases 32 - i,
        {
            if self.key[i] != other.key[i] {
                return false;
            }
            i += 1;
        }
        assert(self.key@ =~= other.key@);
        assert(self.key == other.key);
        true
    }
}

impl PartialEqSpecImpl for ContactId {
    open spec fn obeys_eq_spec() -> bool {
        true
    }

    open spec fn eq_spec(&self, other: &Self) -> bool {
        *self == *other
    }
}

impl PartialOrd for ContactId {
    fn partial_cmp(&self, other: &Self) -> (order: Option<Ordering>) {
        let mut i: usize = 0;
        while i < 32
            invariant
                i <= 32,
                forall|j: int| 0 <= j < i ==> self.key@[j] == other.key@[j],
            decreases 32 - i,
        {
            if self.key[i] < other.key[i] {
                proof {
                    lemma_smaller_byte_first(self.key@, other.key@, i);
                }
                return Some(Ordering::Less);
            }
            if self.key[i] > other.key[i] {
                proof {
                    lemma_smaller_byte_first(other.key@, self.key@, i);
                }
                return Some(Ordering::Greater);
            }
            i += 1;
        }
        assert(self.key@ =~= other.key@);
        Some(Ordering::Equal)
    }
}

impl PartialOrdSpecImpl for ContactId {
    open spec fn obeys_partial_cmp_spec() -> bool {
        true
    }

    open spec fn partial_cmp_spec(&self, other: &Self) -> Option<Ordering> {
        Some(self.ordering(other))
    }
}

} // verus!
