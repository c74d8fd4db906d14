use vstd::prelude::*;

verus! {

/// The byte that separates the algorithm name from the digest in the header value.
pub const DELIMITER: u8 = 0x3d;

/// Whether `c` is an ASCII hexadecimal digit, of either case.
pub open spec fn is_hex_digit(c: u8) -> bool {
    (0x30 <= c && c <= 0x39) || (0x41 <= c && c <= 0x46) || (0x61 <= c && c <= 0x66)
}

/// The value of a hexadecimal digit.
pub open spec fn hex_value(c: u8) -> int {
    if c <= 0x39 {
        c - 0x30
    } else if c <= 0x46 {
        c - 0x41 + 10
    } else {
        c - 0x61 + 10
    }
}

/// What a hexadecimal text decodes to: `None` for an odd length or a non-digit.
pub open spec fn hex_decoded(s: Seq<u8>) -> Option<Seq<u8>> {
    if s.len() % 2 == 0 && (forall|i: int| 0 <= i < s.len() ==> is_hex_digit(#[trigger] s[i])) {
        Some(
            Seq::new(
                s.len() / 2,
                |i: int| (hex_value(s[2 * i]) * 16 + hex_value(s[2 * i + 1])) as u8,
            ),
        )
    } else {
        None
    }
}

/// The part of a header value after its first delimiter, if it has one.
pub open spec fn after_delimiter(v: Seq<u8>) -> Option<Seq<u8>>
    decreases v.len(),
{
    if v.len() == 0 {
        None
    } else if v[0] == DELIMITER {
        Some(v.drop_first())
    } else {
        after_delimiter(v.drop_first())
    }
}

/// The digest that a signature header declares, or `None` when the header is absent,
/// has no delimiter, or does not hold hexadecimal after it.
pub open spec fn declared_signature(header: Option<Seq<u8>>) -> Option<Seq<u8>> {
    match header {
        None => None,
        Some(v) => match after_delimiter(v) {
            None => None,
            Some(digest) => hex_decoded(digest),
        },
    }
}

/// The view of a borrowed header value.
pub open spec fn header_view(header: Option<&[u8]>) -> Option<Seq<u8>> {
    match header {
        None => None,
        Some(v) => Some(v@),
    }
}

/// Relies on `hex::decode`, which accepts digits of either case in pairs and refuses
/// an odd length or any other byte.
#[verifier::external_body]
fn decode_hex(s: &[u8]) -> (r: Option<Vec<u8>>)
    ensures
        match r {
            Some(v) => hex_decoded(s@) == Some(v@),
            None => hex_decoded(s@) is None,
        },
{
    hex::decode(s).ok()
}

proof fn lemma_after_delimiter_skip(v: Seq<u8>, i: int)
    requires
        0 <= i <= v.len(),
        forall|j: int| 0 <= j < i ==> v[j] != DELIMITER,
    ensures
        after_delimiter(v) == after_delimiter(v.subrange(i, v.len() as int)),
    decreases i,
{
    if i > 0 {
        lemma_after_delimiter_skip(v.drop_first(), i - 1);
        assert(v.drop_first().subrange(i - 1, v.len() - 1) =~= v.subrange(i, v.len() as int));
    } else {
        assert(v.subrange(0, v.len() as int) =~= v);
    }
}

/// Position of the first delimiter in `v`, if any.
fn find_delimiter(v: &[u8]) -> (r: Option<usize>)
    ensures
        match r {
            Some(i) => i < v@.len() && after_delimiter(v@) == Some(
                v@.subrange(i + 1, v@.len() as int),
            ),
            None => after_delimiter(v@) is None,
        },
{
    let mut i: usize = 0;
    while i < v.len()
        invariant
            i <= v@.len(),
            forall|j: int| 0 <= j < i ==> v@[j] != DELIMITER,
        decreases v@.len() - i,
    {
        if v[i] == DELIMITER {
            proof {
                lemma_after_delimiter_skip(v@, i as int);
                let rest = v@.subrange(i as int, v@.len() as int);
                assert(rest.drop_first() =~= v@.subrange(i + 1, v@.len() as int));
            }
            return Some(i);
        }
        i = i + 1;
    }
    proof {
        lemma_after_delimiter_skip(v@, i as int);
    }
    None
}

/// Reads the declared digest out of a signature header value: the bytes after the first
/// delimiter, decoded as hexadecimal.
pub fn parse_signature(header: Option<&[u8]>) -> (r: Option<Vec<u8>>)
    ensures
        match r {
            Some(sig) => declared_signature(header_view(header)) == Some(sig@),
            None => declared_signature(header_view(header)) is None,
        },
{
    match header {
        None => None,
        Some(v) => match find_delimiter(v) {
            None => None,
            Some(i) => {
                let n: usize = v.len();
                let digest = vstd::slice::slice_subrange(v, i + 1, n);
                decode_hex(digest)
            },
        },
    }
}

} // verus!
