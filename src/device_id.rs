use vstd::prelude::*;

verus! {

/// What `String::from_utf16_lossy` makes of a sequence of UTF-16 code units.
pub uninterp spec fn utf16_lossy_of(units: Seq<u16>) -> Seq<char>;

/// The UTF-16 code units that `str::encode_utf16` yields for a text.
pub uninterp spec fn utf16_of(text: Seq<char>) -> Seq<u16>;

/// The part of a fixed-size, NUL-padded buffer before its first NUL unit
/// (the whole buffer where it holds none).
pub open spec fn up_to_nul(buf: Seq<u16>) -> Seq<u16>
    decreases buf.len(),
{
    if buf.len() == 0 {
        buf
    } else if buf[0] == 0 {
        Seq::empty()
    } else {
        seq![buf[0]] + up_to_nul(buf.drop_first())
    }
}

/// The identifier that a device buffer holds: its units up to the first NUL,
/// decoded as text.
pub open spec fn device_id_of(buf: Seq<u16>) -> Seq<char> {
    utf16_lossy_of(up_to_nul(buf))
}

/// A prefix with no NUL, followed by the end of the buffer or by a NUL, is
/// what `up_to_nul` keeps.
proof fn lemma_up_to_nul_at(buf: Seq<u16>, k: int)
    requires
        0 <= k <= buf.len(),
        forall|j: int| 0 <= j < k ==> buf[j] != 0,
        k == buf.len() || buf[k] == 0,
    ensures
        up_to_nul(buf) == buf.subrange(0, k),
    decreases buf.len(),
{
    if buf.len() == 0 {
        assert(buf.subrange(0, k) =~= buf);
    } else if buf[0] == 0 {
        assert(buf.subrange(0, k) =~= Seq::<u16>::empty());
    } else {
        let rest = buf.drop_first();
        assert forall|j: int| 0 <= j < k - 1 implies rest[j] != 0 by {
            assert(rest[j] == buf[j + 1]);
        }
        lemma_up_to_nul_at(rest, k - 1);
        assert(seq![buf[0]] + rest.subrange(0, k - 1) =~= buf.subrange(0, k));
    }
}

/// Relies on `String::from_utf16_lossy`: decodes UTF-16 units, replacing
/// invalid ones; the result depends on the units alone.
#[verifier::external_body]
fn from_utf16_lossy(units: &[u16]) -> (r: String)
    ensures
        r@ == utf16_lossy_of(units@),
{
    String::from_utf16_lossy(units)
}

/// Relies on `str::encode_utf16`: the UTF-16 encoding of a text, which depends
/// on the text alone.
#[verifier::external_body]
fn encode_utf16(text: &str) -> (r: Vec<u16>)
    ensures
        r@ == utf16_of(text@),
{
    text.encode_utf16().collect()
}

/// The units of a NUL-padded buffer before its first NUL.
pub fn units_up_to_nul(buf: &[u16]) -> (r: Vec<u16>)
    ensures
        r@ == up_to_nul(buf@),
{
    let mut r: Vec<u16> = Vec::new();
    let mut i: usize = 0;
    while i < buf.len() && buf[i] != 0
        invariant
            i <= buf@.len(),
            r@ == buf@.subrange(0, i as int),
            forall|j: int| 0 <= j < i ==> buf@[j] != 0,
        decreases buf@.len() - i,
    {
        r.push(buf[i]);
        i = i + 1;
        assert(r@ =~= buf@.subrange(0, i as int));
    }
    proof {
        lemma_up_to_nul_at(buf@, i as int);
    }
    r
}

/// The device identifier held in a fixed-size, NUL-padded buffer.
pub fn decode_device_id(buf: &[u16]) -> (r: String)
    ensures
        r@ == device_id_of(buf@),
{
    let units = units_up_to_nul(buf);
    from_utf16_lossy(units.as_slice())
}

/// An image path as the platform's wide-text calls take it: its UTF-16
/// encoding followed by one NUL unit.
pub fn wide_path(path: &str) -> (r: Vec<u16>)
    ensures
        r@ == utf16_of(path@).push(0),
{
    let mut r = encode_utf16(path);
    r.push(0);
    r
}

} // verus!
