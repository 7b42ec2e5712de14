//! Null-terminated byte strings, the form in which the engine's C interface
//! takes names and text and hands text back.

use vstd::prelude::*;

verus! {

/// The zero byte that ends a C string.
pub const NUL: u8 = 0;

/// True when `n` is where the C string held in `bytes` ends: no zero byte
/// comes before `n`, and `n` is either the place of a zero byte or the end
/// of `bytes`.
pub open spec fn ends_at(bytes: Seq<u8>, n: int) -> bool {
    &&& 0 <= n <= bytes.len()
    &&& forall|i: int| 0 <= i < n ==> bytes[i] != NUL
    &&& n < bytes.len() ==> bytes[n] == NUL
}

/// The length of the C string held in `bytes`: the number of bytes before the
/// first zero byte, or all of them where `bytes` holds none.
pub open spec fn c_str_len(bytes: Seq<u8>) -> nat
    decreases bytes.len(),
{
    if bytes.len() == 0 || bytes[0] == NUL {
        0
    } else {
        1 + c_str_len(bytes.drop_first())
    }
}

/// The C string held in `bytes`, without its terminator.
pub open spec fn c_str_bytes(bytes: Seq<u8>) -> Seq<u8> {
    bytes.take(c_str_len(bytes) as int)
}

/// `bytes` followed by the terminator.
pub open spec fn with_nul(bytes: Seq<u8>) -> Seq<u8> {
    bytes.push(NUL)
}

/// `c_str_len` is a place where the C string ends.
pub proof fn lemma_c_str_len_ends(bytes: Seq<u8>)
    ensures
        ends_at(bytes, c_str_len(bytes) as int),
    decreases bytes.len(),
{
    if bytes.len() == 0 || bytes[0] == NUL {
    } else {
        let rest = bytes.drop_first();
        lemma_c_str_len_ends(rest);
        let n = c_str_len(bytes) as int;
        assert forall|i: int| 0 <= i < n implies bytes[i] != NUL by {
            if i > 0 {
                assert(bytes[i] == rest[i - 1]);
            }
        }
        if n < bytes.len() {
            assert(bytes[n] == rest[n - 1]);
        }
    }
}

/// A C string ends in one place only.
pub proof fn lemma_ends_at_unique(bytes: Seq<u8>, m: int, n: int)
    requires
        ends_at(bytes, m),
        ends_at(bytes, n),
    ensures
        m == n,
{
}

/// Where the C string in `bytes` ends, `c_str_len` says so.
pub proof fn lemma_ends_at_is_len(bytes: Seq<u8>, n: int)
    requires
        ends_at(bytes, n),
    ensures
        n == c_str_len(bytes),
{
    lemma_c_str_len_ends(bytes);
    lemma_ends_at_unique(bytes, n, c_str_len(bytes) as int);
}

/// Bytes without a zero byte are one C string from end to end: reading them
/// stops where they stop.
pub proof fn lemma_unterminated_is_whole(bytes: Seq<u8>)
    requires
        !bytes.contains(NUL),
    ensures
        c_str_len(bytes) == bytes.len(),
        c_str_bytes(bytes) == bytes,
{
    lemma_ends_at_is_len(bytes, bytes.len() as int);
}

/// The C string built for bytes without a zero byte holds those bytes, all
/// of them and no others.
pub proof fn lemma_c_string_is_whole(bytes: Seq<u8>)
    requires
        !bytes.contains(NUL),
    ensures
        c_str_len(with_nul(bytes)) == bytes.len(),
        c_str_bytes(with_nul(bytes)) == bytes,
{
    lemma_ends_at_is_len(with_nul(bytes), bytes.len() as int);
}

/// Finds the end of the C string held in `buf`. The search never leaves
/// `buf`: where no zero byte is found the string is taken to fill it.
pub fn c_str_length(buf: &[u8]) -> (n: usize)
    ensures
        n == c_str_len(buf@),
        n <= buf@.len(),
{
    let mut i: usize = 0;
    while i < buf.len() && buf[i] != NUL
        invariant
            i <= buf@.len(),
            forall|j: int| 0 <= j < i ==> buf@[j] != NUL,
        decreases buf@.len() - i,
    {
        i += 1;
    }
    proof {
        lemma_ends_at_is_len(buf@, i as int);
    }
    i
}

/// Tells whether `bytes` holds a zero byte.
pub fn has_nul(bytes: &[u8]) -> (b: bool)
    ensures
        b == bytes@.contains(NUL),
{
    let n = c_str_length(bytes);
    proof {
        lemma_c_str_len_ends(bytes@);
    }
    n < bytes.len()
}

/// Builds the C string for `bytes`: the same bytes and a terminator after
/// them. Bytes that hold a zero have no C string, and give `None`.
pub fn to_c_string(bytes: &[u8]) -> (r: Option<Vec<u8>>)
    ensures
        r is None <==> bytes@.contains(NUL),
        r matches Some(c) ==> c@ == with_nul(bytes@),
{
    let mut out: Vec<u8> = Vec::new();
    let mut i: usize = 0;
    while i < bytes.len()
        invariant
            i <= bytes@.len(),
            out@ == bytes@.take(i as int),
            forall|j: int| 0 <= j < i ==> bytes@[j] != NUL,
        decreases bytes@.len() - i,
    {
        let b: u8 = bytes[i];
        if b == NUL {
            return None;
        }
        out.push(b);
        assert(bytes@.take(i + 1) == bytes@.take(i as int).push(b));
        i += 1;
    }
    assert(bytes@.take(i as int) == bytes@);
    out.push(NUL);
    Some(out)
}

} // verus!
