use vstd::prelude::*;
use vstd::utf8::encode_utf8;

verus! {

/// `suffix` is a byte-wise suffix of `text`.
pub open spec fn is_suffix_of(suffix: Seq<u8>, text: Seq<u8>) -> bool {
    suffix.len() <= text.len() && text.subrange(text.len() - suffix.len(), text.len() as int)
        == suffix
}

/// The UTF-8 bytes of a string's characters.
pub open spec fn bytes_of(s: Seq<char>) -> Seq<u8> {
    encode_utf8(s)
}

/// Some entry of `suffixes` is a byte-wise suffix of `host`.
pub open spec fn matches_some_suffix(host: Seq<char>, suffixes: Seq<String>) -> bool {
    exists|i: int|
        0 <= i < suffixes.len() && is_suffix_of(bytes_of(#[trigger] suffixes[i]@), bytes_of(host))
}

/// Byte-wise `text.ends_with(suffix)`.
pub fn ends_with_bytes(text: &[u8], suffix: &[u8]) -> (r: bool)
    ensures
        r == is_suffix_of(suffix@, text@),
{
    let tl = text.len();
    let sl = suffix.len();
    if sl > tl {
        return false;
    }
    let off: usize = tl - sl;
    let mut i: usize = 0;
    while i < sl
        invariant
            tl == text@.len(),
            sl == suffix@.len(),
            off + sl == tl,
            i <= sl,
            forall|j: int| 0 <= j < i ==> text@[off + j] == suffix@[j],
        decreases sl - i,
    {
        if text[off + i] != suffix[i] {
            assert(text@.subrange(off as int, tl as int)[i as int] != suffix@[i as int]);
            return false;
        }
        i = i + 1;
    }
    assert(text@.subrange(off as int, tl as int) =~= suffix@);
    true
}

/// Whether `host` ends, byte for byte, with at least one of `suffixes`.
/// There is no case folding and no regard for label boundaries: the
/// suffix `ton` matches `proton`.
pub fn is_gateway_domain(host: &str, suffixes: &Vec<String>) -> (r: bool)
    ensures
        r == matches_some_suffix(host@, suffixes@),
{
    let hb = host.as_bytes();
    let mut i: usize = 0;
    while i < suffixes.len()
        invariant
            i <= suffixes@.len(),
            hb@ == bytes_of(host@),
            forall|j: int|
                0 <= j < i ==> !is_suffix_of(bytes_of(#[trigger] suffixes@[j]@), bytes_of(host@)),
        decreases suffixes@.len() - i,
    {
        let s: &str = suffixes[i].as_str();
        if ends_with_bytes(hb, s.as_bytes()) {
            return true;
        }
        i = i + 1;
    }
    false
}

/// With no suffixes configured, no host is routed to the gateway.
pub proof fn lemma_no_suffixes_never_match(host: Seq<char>, suffixes: Seq<String>)
    requires
        suffixes.len() == 0,
    ensures
        !matches_some_suffix(host, suffixes),
{
}

/// A host matches exactly when one of the suffixes, taken alone, matches it.
pub proof fn lemma_match_is_some_single_match(host: Seq<char>, suffixes: Seq<String>)
    ensures
        matches_some_suffix(host, suffixes) <==> exists|i: int|
            0 <= i < suffixes.len() && matches_some_suffix(host, seq![#[trigger] suffixes[i]]),
{
    if matches_some_suffix(host, suffixes) {
        let i = choose|i: int|
            0 <= i < suffixes.len() && is_suffix_of(bytes_of(#[trigger] suffixes[i]@), bytes_of(host));
        assert(seq![suffixes[i]][0] == suffixes[i]);
        assert(matches_some_suffix(host, seq![suffixes[i]]));
    }
    if exists|i: int| 0 <= i < suffixes.len() && matches_some_suffix(host, seq![#[trigger] suffixes[i]]) {
        let i = choose|i: int|
            0 <= i < suffixes.len() && matches_some_suffix(host, seq![#[trigger] suffixes[i]]);
        let k = choose|k: int|
            0 <= k < 1 && is_suffix_of(bytes_of(#[trigger] seq![suffixes[i]][k]@), bytes_of(host));
        assert(k == 0);
        assert(seq![suffixes[i]][0] == suffixes[i]);
    }
}

} // verus!
