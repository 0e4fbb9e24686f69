//! Text crossing the foreign boundary: NUL-terminated byte strings out,
//! best-effort decoded text back.
use vstd::prelude::*;
use vstd::slice::slice_subrange;
use vstd::string::*;
use vstd::utf8::*;

verus! {

/// The text that `String::from_utf8_lossy` makes of a byte string that is not
/// valid UTF-8: each invalid sequence becomes U+FFFD.
pub uninterp spec fn lossy_utf8(b: Seq<u8>) -> Seq<char>;

/// Best-effort decoding of bytes from the foreign side: valid UTF-8 as it
/// stands, anything else with replacement characters.
pub open spec fn decoded(b: Seq<u8>) -> Seq<char> {
    if valid_utf8(b) {
        decode_utf8(b)
    } else {
        lossy_utf8(b)
    }
}

/// Whether a byte string holds a NUL byte, which the foreign side would take
/// for the end of the string.
pub open spec fn has_nul(b: Seq<u8>) -> bool {
    b.contains(0u8)
}

/// The NUL-terminated form of a byte string.
pub open spec fn terminated(b: Seq<u8>) -> Seq<u8> {
    b.push(0u8)
}

/// The prefix of a buffer before its first NUL byte; the whole buffer when it
/// holds none.
pub open spec fn until_nul(b: Seq<u8>) -> Seq<u8>
    decreases b.len(),
{
    if b.len() == 0 {
        b
    } else if b[0] == 0u8 {
        Seq::empty()
    } else {
        seq![b[0]] + until_nul(b.drop_first())
    }
}

/// Relies on `String::from_utf8_lossy`: valid UTF-8 is decoded as it stands,
/// anything else as `lossy_utf8` names it.
#[verifier::external_body]
fn from_utf8_lossy(b: &[u8]) -> (r: String)
    ensures
        r@ == (if valid_utf8(b@) {
            decode_utf8(b@)
        } else {
            lossy_utf8(b@)
        }),
{
    String::from_utf8_lossy(b).into_owned()
}

/// Index of the first NUL byte of `b`, or `b.len()` when there is none.
fn first_nul(b: &[u8]) -> (r: usize)
    ensures
        r <= b@.len(),
        forall|i: int| 0 <= i < r ==> b@[i] != 0u8,
        r < b@.len() ==> b@[r as int] == 0u8,
{
    let mut i: usize = 0;
    while i < b.len()
        invariant
            i <= b@.len(),
            forall|j: int| 0 <= j < i ==> b@[j] != 0u8,
        decreases b@.len() - i,
    {
        if b[i] == 0u8 {
            return i;
        }
        i = i + 1;
    }
    i
}

/// `until_nul` is the prefix before the first NUL byte.
proof fn lemma_until_nul(b: Seq<u8>, n: int)
    requires
        0 <= n <= b.len(),
        forall|i: int| 0 <= i < n ==> b[i] != 0u8,
        n < b.len() ==> b[n] == 0u8,
    ensures
        until_nul(b) == b.subrange(0, n),
    decreases b.len(),
{
    if b.len() == 0 {
        assert(b.subrange(0, n) =~= b);
    } else if n == 0 {
        assert(b.subrange(0, n) =~= Seq::<u8>::empty());
    } else {
        let t = b.drop_first();
        assert forall|i: int| 0 <= i < n - 1 implies t[i] != 0u8 by {
            assert(t[i] == b[i + 1]);
        }
        lemma_until_nul(t, n - 1);
        assert(b.subrange(0, n) =~= seq![b[0]] + t.subrange(0, n - 1));
    }
}

/// A byte string with no NUL byte is its own prefix before the first NUL.
pub proof fn lemma_until_nul_of_nul_free(b: Seq<u8>)
    requires
        !has_nul(b),
    ensures
        until_nul(b) == b,
{
    assert forall|i: int| 0 <= i < b.len() implies b[i] != 0u8 by {
        if b[i] == 0u8 {
            assert(b.contains(0u8));
        }
    }
    lemma_until_nul(b, b.len() as int);
    assert(b.subrange(0, b.len() as int) =~= b);
}

/// The terminated form of a NUL-free byte string ends where the string does.
pub proof fn lemma_until_nul_of_terminated(b: Seq<u8>)
    requires
        !has_nul(b),
    ensures
        until_nul(terminated(b)) == b,
{
    let t = terminated(b);
    assert forall|i: int| 0 <= i < b.len() implies t[i] != 0u8 by {
        if b[i] == 0u8 {
            assert(b.contains(0u8));
        }
    }
    lemma_until_nul(t, b.len() as int);
    assert(t.subrange(0, b.len() as int) =~= b);
}

/// Decodes a borrowed NUL-terminated buffer into owned text: the bytes before
/// the first NUL (all of them when there is none), decoded best-effort.
pub fn decode_c_bytes(buf: &[u8]) -> (r: String)
    ensures
        r@ == decoded(until_nul(buf@)),
{
    let n = first_nul(buf);
    proof {
        lemma_until_nul(buf@, n as int);
    }
    let text = slice_subrange(buf, 0, n);
    from_utf8_lossy(text)
}

/// Whether `b` holds a NUL byte.
pub fn contains_nul(b: &[u8]) -> (r: bool)
    ensures
        r == has_nul(b@),
{
    let n = first_nul(b);
    if n < b.len() {
        assert(b@[n as int] == 0u8);
        true
    } else {
        assert forall|i: int| 0 <= i < b@.len() implies b@[i] != 0u8 by {}
        false
    }
}

/// Encodes text as the NUL-terminated byte string the foreign side takes: its
/// UTF-8 bytes and a terminator. Text with an embedded NUL cannot be
/// represented there and yields `None`.
pub fn to_c_string(s: &str) -> (r: Option<Vec<u8>>)
    ensures
        r is None <==> has_nul(encode_utf8(s@)),
        r matches Some(v) ==> v@ == terminated(encode_utf8(s@)),
{
    let mut bytes = s.as_bytes_vec();
    if contains_nul(bytes.as_slice()) {
        None
    } else {
        bytes.push(0u8);
        Some(bytes)
    }
}

/// Text that holds no NUL byte comes back unchanged when it is encoded for the
/// foreign side and what the foreign side holds is decoded again.
pub proof fn lemma_text_round_trip(s: Seq<char>)
    requires
        !has_nul(encode_utf8(s)),
    ensures
        until_nul(terminated(encode_utf8(s))) == encode_utf8(s),
        decoded(until_nul(terminated(encode_utf8(s)))) == s,
{
    lemma_until_nul_of_terminated(encode_utf8(s));
    encode_utf8_valid_utf8(s);
    encode_utf8_decode_utf8(s);
}

} // verus!
