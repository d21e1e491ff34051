use vstd::prelude::*;

verus! {

/// What the sender reads of a DXGI adapter description.
#[derive(Clone, Debug)]
pub struct AdapterDescription {
    /// The adapter name in UTF-16, padded with NUL units.
    pub description: Vec<u16>,
    pub vendor_id: u32,
    /// Bytes of dedicated video memory.
    pub dedicated_video_memory: u64,
    /// Bytes of shared system memory.
    pub shared_system_memory: u64,
}

/// What the sender reports of the primary adapter.
#[derive(Clone, Debug)]
pub struct DxgiAdapterProbe {
    pub adapter_name: String,
    pub vendor_id: u32,
    pub dedicated_video_memory_mb: u64,
    pub shared_system_memory_mb: u64,
}

/// A UTF-16 unit that opens a surrogate pair.
pub open spec fn is_high_surrogate(u: u16) -> bool {
    0xD800 <= u < 0xDC00
}

/// A UTF-16 unit that closes a surrogate pair.
pub open spec fn is_low_surrogate(u: u16) -> bool {
    0xDC00 <= u < 0xE000
}

/// UTF-16 decoding in which every unpaired surrogate unit becomes U+FFFD:
/// a unit outside the surrogate range is its own character, a high surrogate
/// followed by a low one is the character they pair to, any other surrogate
/// unit is the replacement character.
pub open spec fn utf16_lossy(units: Seq<u16>) -> Seq<char>
    decreases units.len(),
{
    if units.len() == 0 {
        Seq::empty()
    } else if !is_high_surrogate(units[0]) && !is_low_surrogate(units[0]) {
        seq![units[0] as char] + utf16_lossy(units.drop_first())
    } else if is_high_surrogate(units[0]) && units.len() >= 2 && is_low_surrogate(units[1]) {
        seq![(0x10000 + (units[0] - 0xD800) * 0x400 + (units[1] - 0xDC00)) as char]
            + utf16_lossy(units.subrange(2, units.len() as int))
    } else {
        seq!['\u{FFFD}'] + utf16_lossy(units.drop_first())
    }
}

/// The UTF-16 units of a character: one unit below U+10000, else a surrogate
/// pair.
pub open spec fn utf16_encode_char(c: char) -> Seq<u16> {
    let v = c as int;
    if v < 0x10000 {
        seq![v as u16]
    } else {
        seq![(0xD800 + (v - 0x10000) / 0x400) as u16, (0xDC00 + (v - 0x10000) % 0x400) as u16]
    }
}

/// The UTF-16 units of a text.
pub open spec fn utf16_encode(s: Seq<char>) -> Seq<u16>
    decreases s.len(),
{
    if s.len() == 0 {
        Seq::empty()
    } else {
        utf16_encode_char(s[0]) + utf16_encode(s.drop_first())
    }
}

/// Calls `String::from_utf16_lossy`, which decodes UTF-16 and puts the
/// replacement character U+FFFD in place of each unpaired surrogate unit.
#[verifier::external_body]
fn decode_utf16_lossy(units: &[u16]) -> (r: String)
    ensures
        r@ == utf16_lossy(units@),
{
    String::from_utf16_lossy(units)
}

proof fn lemma_decode_encoded_char(c: char, rest: Seq<u16>)
    ensures
        utf16_lossy(utf16_encode_char(c) + rest) == seq![c] + utf16_lossy(rest),
{
    let units = utf16_encode_char(c) + rest;
    let v = c as int;
    if v < 0x10000 {
        assert(units[0] == v as u16);
        assert(units.drop_first() =~= rest);
        assert(units[0] as char == c);
    } else {
        let w = v - 0x10000;
        assert(0 <= w / 0x400 < 0x400 && 0 <= w % 0x400 < 0x400 && w == (w / 0x400) * 0x400 + w % 0x400) by (nonlinear_arith)
            requires
                0 <= w < 0x100000,
        ;
        assert(units.subrange(2, units.len() as int) =~= rest);
        assert((0x10000 + (units[0] - 0xD800) * 0x400 + (units[1] - 0xDC00)) as char == c);
    }
}

proof fn lemma_decode_encoded(s: Seq<char>)
    ensures
        utf16_lossy(utf16_encode(s)) == s,
    decreases s.len(),
{
    if s.len() > 0 {
        lemma_decode_encoded_char(s[0], utf16_encode(s.drop_first()));
        lemma_decode_encoded(s.drop_first());
        assert(seq![s[0]] + s.drop_first() =~= s);
    }
}

proof fn lemma_char_units_nonzero(c: char)
    requires
        c != '\0',
    ensures
        forall|j: int| 0 <= j < utf16_encode_char(c).len() ==> utf16_encode_char(c)[j] != 0,
{
    let v = c as int;
    if v >= 0x10000 {
        let w = v - 0x10000;
        assert(0 <= w / 0x400 < 0x400 && 0 <= w % 0x400 < 0x400) by (nonlinear_arith)
            requires
                0 <= w < 0x100000,
        ;
    } else {
        assert(v != 0);
    }
}

proof fn lemma_encoded_units_nonzero(s: Seq<char>)
    requires
        forall|i: int| 0 <= i < s.len() ==> s[i] != '\0',
    ensures
        forall|j: int| 0 <= j < utf16_encode(s).len() ==> utf16_encode(s)[j] != 0,
    decreases s.len(),
{
    if s.len() > 0 {
        assert(s[0] != '\0');
        lemma_encoded_units_nonzero(s.drop_first());
        let a = utf16_encode_char(s[0]);
        let b = utf16_encode(s.drop_first());
        lemma_char_units_nonzero(s[0]);
        assert forall|j: int| 0 <= j < (a + b).len() implies (a + b)[j] != 0 by {
            if j >= a.len() {
                assert((a + b)[j] == b[j - a.len()]);
            }
        }
    }
}

/// The units before the first NUL unit, or all of them where there is none.
pub open spec fn name_units(units: Seq<u16>) -> Seq<u16>
    decreases units.len(),
{
    if units.len() == 0 || units[0] == 0 {
        Seq::empty()
    } else {
        seq![units[0]] + name_units(units.drop_first())
    }
}

proof fn lemma_name_units_prefix(units: Seq<u16>, i: int)
    requires
        0 <= i <= units.len(),
        forall|j: int| 0 <= j < i ==> units[j] != 0,
    ensures
        name_units(units) == units.subrange(0, i) + name_units(units.subrange(i, units.len() as int)),
    decreases i,
{
    if i > 0 {
        lemma_name_units_prefix(units.drop_first(), i - 1);
        assert(units.drop_first().subrange(0, i - 1) =~= units.subrange(1, i));
        assert(units.drop_first().subrange(i - 1, units.len() - 1) =~= units.subrange(i, units.len() as int));
        assert(seq![units[0]] + units.subrange(1, i) =~= units.subrange(0, i));
    } else {
        assert(units.subrange(0, units.len() as int) =~= units);
    }
}

/// Decodes the adapter name: the description up to its first NUL unit.
pub fn decode_adapter_name(desc: &AdapterDescription) -> (r: String)
    ensures
        r@ == utf16_lossy(name_units(desc.description@)),
{
    let units = desc.description.as_slice();
    let n: usize = units.len();
    let mut end: usize = 0;
    while end < n && units[end] != 0
        invariant
            end <= n,
            n == units@.len(),
            units@ == desc.description@,
            forall|j: int| 0 <= j < end ==> units@[j] != 0,
        decreases n - end,
    {
        end = end + 1;
    }
    proof {
        lemma_name_units_prefix(units@, end as int);
        let rest = units@.subrange(end as int, n as int);
        assert(rest.len() == 0 || rest[0] == 0);
        assert(name_units(rest) =~= Seq::<u16>::empty());
        assert(units@.subrange(0, end as int) + Seq::<u16>::empty() =~= units@.subrange(0, end as int));
    }
    let (name, _) = units.split_at(end);
    decode_utf16_lossy(name)
}

/// Bytes in a mebibyte.
pub const BYTES_PER_MIB: u64 = 1024 * 1024;

impl DxgiAdapterProbe {
    /// The report of an adapter: its decoded name, its vendor and its memory
    /// in whole mebibytes.
    pub fn from_description(desc: &AdapterDescription) -> (p: DxgiAdapterProbe)
        ensures
            p.adapter_name@ == utf16_lossy(name_units(desc.description@)),
            p.vendor_id == desc.vendor_id,
            p.dedicated_video_memory_mb == desc.dedicated_video_memory / 1_048_576,
            p.shared_system_memory_mb == desc.shared_system_memory / 1_048_576,
    {
        DxgiAdapterProbe {
            adapter_name: decode_adapter_name(desc),
            vendor_id: desc.vendor_id,
            dedicated_video_memory_mb: desc.dedicated_video_memory / BYTES_PER_MIB,
            shared_system_memory_mb: desc.shared_system_memory / BYTES_PER_MIB,
        }
    }
}

/// Decoding undoes NUL-padded UTF-16 encoding: an adapter name without NUL
/// characters, encoded and padded with NUL units, decodes to itself.
pub proof fn law_adapter_name_roundtrip(name: Seq<char>, padding: nat)
    requires
        forall|i: int| 0 <= i < name.len() ==> name[i] != '\0',
    ensures
        utf16_lossy(name_units(utf16_encode(name) + Seq::new(padding, |i: int| 0u16))) == name,
{
    let enc = utf16_encode(name);
    let pad = Seq::new(padding, |i: int| 0u16);
    let units = enc + pad;
    lemma_encoded_units_nonzero(name);
    assert forall|j: int| 0 <= j < enc.len() implies units[j] != 0 by {
        assert(units[j] == enc[j]);
    }
    lemma_name_units_prefix(units, enc.len() as int);
    assert(units.subrange(0, enc.len() as int) =~= enc);
    assert(units.subrange(enc.len() as int, units.len() as int) =~= pad);
    assert(name_units(pad) =~= Seq::<u16>::empty());
    assert(enc + Seq::<u16>::empty() =~= enc);
    lemma_decode_encoded(name);
}

} // verus!
