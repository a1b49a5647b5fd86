//! Text fields of a block: the handle (strict UTF-8) and the display name
//! (Windows-1252), both padded with trailing NUL characters.
use vstd::prelude::*;
use vstd::string::StrSliceExecFns;
use vstd::utf8::{decode_first_scalar, decode_utf8, pop_first_scalar, valid_utf8};

verus! {

/// What `encoding_rs::WINDOWS_1252.decode` makes of a byte string.
pub uninterp spec fn windows_1252_decoded(b: Seq<u8>) -> Seq<char>;

/// Relies on `encoding_rs::Encoding::decode` with `WINDOWS_1252`: it never
/// fails (malformed input becomes U+FFFD; a leading byte-order mark switches
/// to UTF-8 or UTF-16) and its text depends on the bytes alone. It panics only when the output size overflows, which a short input
/// cannot reach.
#[verifier::external_body]
pub(crate) fn decode_windows_1252(b: &[u8]) -> (r: String)
    requires
        b@.len() <= 1024,
    ensures
        r@ == windows_1252_decoded(b@),
{
    let (text, _, _) = encoding_rs::WINDOWS_1252.decode(b);
    text.into_owned()
}

/// The strict UTF-8 reading of a byte string, or `None` where it is not UTF-8.
pub open spec fn utf8_text(b: Seq<u8>) -> Option<Seq<char>> {
    if valid_utf8(b) {
        Some(decode_utf8(b))
    } else {
        None
    }
}

/// Relies on `String::from_utf8`: `Ok` exactly on valid UTF-8, holding the
/// characters that the bytes encode.
#[verifier::external_body]
pub(crate) fn utf8_string(b: Vec<u8>) -> (r: Option<String>)
    ensures
        match r {
            Some(s) => utf8_text(b@) == Some(s@),
            None => utf8_text(b@) is None,
        },
{
    String::from_utf8(b).ok()
}

/// The text with its trailing NUL characters removed.
pub open spec fn strip_nuls(s: Seq<char>) -> Seq<char>
    decreases s.len(),
{
    if s.len() > 0 && s.last() == '\0' {
        strip_nuls(s.drop_last())
    } else {
        s
    }
}

/// A prefix that ends in a non-NUL character and is followed only by NULs is
/// what `strip_nuls` keeps.
proof fn lemma_strip_nuls_at(s: Seq<char>, n: int)
    requires
        0 <= n <= s.len(),
        forall|i: int| n <= i < s.len() ==> s[i] == '\0',
        n > 0 ==> s[n - 1] != '\0',
    ensures
        strip_nuls(s) == s.subrange(0, n),
    decreases s.len(),
{
    if s.len() > n {
        lemma_strip_nuls_at(s.drop_last(), n);
        assert(s.drop_last().subrange(0, n) =~= s.subrange(0, n));
    } else {
        assert(s.subrange(0, n) =~= s);
    }
}

/// Bytes that are all zero are UTF-8 for NUL characters alone, and so
/// nothing is left once they are stripped.
pub proof fn lemma_zero_bytes_strip_to_nothing(b: Seq<u8>)
    requires
        forall|i: int| 0 <= i < b.len() ==> b[i] == 0,
    ensures
        valid_utf8(b),
        strip_nuls(decode_utf8(b)).len() == 0,
{
    lemma_zero_bytes_decode_to_nuls(b);
    lemma_nuls_strip_to_nothing(decode_utf8(b));
}

/// Zero bytes decode, one for one, to NUL characters.
proof fn lemma_zero_bytes_decode_to_nuls(b: Seq<u8>)
    requires
        forall|i: int| 0 <= i < b.len() ==> b[i] == 0,
    ensures
        valid_utf8(b),
        decode_utf8(b).len() == b.len(),
        forall|i: int| 0 <= i < b.len() ==> decode_utf8(b)[i] == '\0',
    decreases b.len(),
{
    if b.len() > 0 {
        let rest = b.subrange(1, b.len() as int);
        lemma_zero_bytes_decode_to_nuls(rest);
        assert(pop_first_scalar(b) =~= rest);
        assert((0u8 & 0x7Fu8) == 0u8) by (bit_vector);
        assert(b[0] == 0);
        assert(decode_first_scalar(b) == 0);
        assert((0u32 as char) == '\0');
        let d = decode_utf8(b);
        assert(d == seq![0u32 as char] + decode_utf8(rest));
        assert forall|i: int| 0 <= i < b.len() implies d[i] == '\0' by {
            if i > 0 {
                assert(d[i] == decode_utf8(rest)[i - 1]);
            }
        }
    }
}

/// A text of NUL characters alone strips to nothing.
proof fn lemma_nuls_strip_to_nothing(s: Seq<char>)
    requires
        forall|i: int| 0 <= i < s.len() ==> s[i] == '\0',
    ensures
        strip_nuls(s).len() == 0,
    decreases s.len(),
{
    if s.len() > 0 {
        lemma_nuls_strip_to_nothing(s.drop_last());
    }
}

/// Removes trailing NUL characters.
pub fn trim_nuls(s: &str) -> (r: String)
    ensures
        r@ == strip_nuls(s@),
{
    let mut n: usize = s.unicode_len();
    while n > 0 && s.get_char(n - 1) == '\0'
        invariant
            n <= s@.len(),
            forall|i: int| n <= i < s@.len() ==> s@[i] == '\0',
        decreases n,
    {
        n = n - 1;
    }
    proof {
        lemma_strip_nuls_at(s@, n as int);
    }
    String::from_str(s.substring_char(0, n))
}

/// The display name of the reserved dummy account.
pub open spec fn placeholder_name() -> Seq<char> {
    seq!['H', 'a', 'c', 'k', ' ', '&', ' ', 'S', 'l', 'a', 's', 'h']
}

/// Whether a (stripped) display name is that of the reserved dummy account.
pub fn is_placeholder_name(name: &str) -> (r: bool)
    ensures
        r == (name@ == placeholder_name()),
{
    let p = "Hack & Slash";
    proof {
        reveal_strlit("Hack & Slash");
        assert(p@ =~= placeholder_name());
    }
    let n: usize = name.unicode_len();
    if n != 12 {
        return false;
    }
    let mut i: usize = 0;
    while i < 12
        invariant
            i <= 12,
            name@.len() == 12,
            p@ == placeholder_name(),
            forall|j: int| 0 <= j < i ==> name@[j] == p@[j],
        decreases 12 - i,
    {
        if name.get_char(i) != p.get_char(i) {
            return false;
        }
        i = i + 1;
    }
    assert(name@ =~= p@);
    true
}

} // verus!
