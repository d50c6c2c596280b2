use vstd::prelude::*;
use vstd::string::StringSliceAdditionalSpecFns;

verus! {

/// Whether a byte string holds the terminator byte anywhere.
pub open spec fn has_nul(b: Seq<u8>) -> bool {
    exists|i: int| 0 <= i < b.len() && b[i] == 0
}

/// `t` is the text that a terminated byte buffer `b` holds: the bytes of `b`
/// before its first terminator, or all of `b` where it has none.
pub open spec fn is_c_text(b: Seq<u8>, t: Seq<u8>) -> bool {
    &&& t.len() <= b.len()
    &&& t == b.take(t.len() as int)
    &&& !has_nul(t)
    &&& (t.len() == b.len() || b[t.len() as int] == 0)
}

/// Encodes text as a terminated byte string, the form in which every name,
/// triple and path reaches the backend. `None` where the text holds a
/// terminator byte of its own, which the backend could not tell from the end.
pub fn to_c_string(s: &str) -> (r: Option<Vec<u8>>)
    ensures
        r is None <==> has_nul(s.spec_bytes()),
        r matches Some(v) ==> v@ == s.spec_bytes().push(0),
{
    let bytes = s.as_bytes();
    let mut out: Vec<u8> = Vec::new();
    let mut i: usize = 0;
    while i < bytes.len()
        invariant
            bytes@ == s.spec_bytes(),
            i <= bytes@.len(),
            out@ == bytes@.take(i as int),
            !has_nul(out@),
        decreases bytes@.len() - i,
    {
        if bytes[i] == 0 {
            return None;
        }
        out.push(bytes[i]);
        i = i + 1;
        assert(out@ =~= bytes@.take(i as int));
    }
    assert(out@ =~= bytes@);
    out.push(0);
    Some(out)
}

/// Reads the text of a terminated byte buffer handed back by the backend: the
/// bytes before the first terminator.
pub fn from_c_string(b: &[u8]) -> (r: Vec<u8>)
    ensures
        is_c_text(b@, r@),
{
    let mut out: Vec<u8> = Vec::new();
    let mut i: usize = 0;
    while i < b.len() && b[i] != 0
        invariant
            i <= b@.len(),
            out@ == b@.take(i as int),
            !has_nul(out@),
        decreases b@.len() - i,
    {
        out.push(b[i]);
        i = i + 1;
        assert(out@ =~= b@.take(i as int));
    }
    out
}

/// A terminated buffer has exactly one text: `is_c_text` pins it down.
pub proof fn lemma_c_text_unique(b: Seq<u8>, t1: Seq<u8>, t2: Seq<u8>)
    requires
        is_c_text(b, t1),
        is_c_text(b, t2),
    ensures
        t1 == t2,
{
    if t1.len() < t2.len() {
        assert(t2[t1.len() as int] == b[t1.len() as int]);
    } else if t2.len() < t1.len() {
        assert(t1[t2.len() as int] == b[t2.len() as int]);
    }
    assert(t1 =~= t2);
}

/// Encoding text as a terminated byte string and reading it back gives the
/// bytes of the text unchanged.
pub proof fn lemma_c_string_round_trip(s: &str, encoded: Seq<u8>, decoded: Seq<u8>)
    requires
        !has_nul(s.spec_bytes()),
        encoded == s.spec_bytes().push(0),
        is_c_text(encoded, decoded),
    ensures
        decoded == s.spec_bytes(),
{
    let t = s.spec_bytes();
    assert(t =~= encoded.take(t.len() as int));
    lemma_c_text_unique(encoded, decoded, t);
}

} // verus!
