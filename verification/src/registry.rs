//! How settings are laid out as registry values: `REG_SZ` strings as
//! NUL-terminated UTF-16LE bytes and `REG_DWORD` numbers as four
//! little-endian bytes, both ways.

use vstd::prelude::*;
use vstd::bytes::{spec_u32_from_le_bytes, spec_u32_to_le_bytes, u32_from_le_bytes, u32_to_le_bytes};
use crate::config::{config_valid, is_preset_name, preset_table, spec_config_from_values, ConfigView};
use crate::text::{
    lemma_utf16_no_zero, lemma_utf16_round_trip, utf16_decode, utf16_of, utf16_to_string, wide_nul,
};

verus! {

/// UTF-16 units as little-endian bytes.
pub open spec fn le_bytes(u: Seq<u16>) -> Seq<u8> {
    Seq::new(
        2 * u.len(),
        |i: int|
            if i % 2 == 0 {
                (u[i / 2] % 256) as u8
            } else {
                (u[i / 2] / 256) as u8
            },
    )
}

/// Little-endian bytes read as UTF-16 units (a trailing odd byte is
/// ignored).
pub open spec fn units_of(b: Seq<u8>) -> Seq<u16> {
    Seq::new(b.len() / 2, |i: int| (b[2 * i] + 256 * b[2 * i + 1]) as u16)
}

/// The units before the first NUL unit.
pub open spec fn until_nul(u: Seq<u16>) -> Seq<u16>
    decreases u.len(),
{
    if u.len() == 0 || u[0] == 0 {
        Seq::empty()
    } else {
        seq![u[0]] + until_nul(u.drop_first())
    }
}

/// The `REG_SZ` bytes stored for a text: its UTF-16 units, a NUL, as
/// little-endian bytes.
pub open spec fn spec_string_value(s: Seq<char>) -> Seq<u8> {
    le_bytes(utf16_of(s).push(0))
}

/// The text read back from `REG_SZ` bytes: the units before the first NUL,
/// decoded lossily; `None` when fewer than two bytes were read.
pub open spec fn spec_read_string(b: Seq<u8>) -> Option<Seq<char>> {
    if b.len() >= 2 {
        Some(utf16_decode(until_nul(units_of(b))))
    } else {
        None
    }
}

/// The number read back from `REG_DWORD` bytes; `None` unless there are
/// exactly four.
pub open spec fn spec_read_dword(b: Seq<u8>) -> Option<u32> {
    if b.len() == 4 {
        Some(spec_u32_from_le_bytes(b))
    } else {
        None
    }
}

/// UTF-16 units as little-endian bytes.
pub fn units_to_bytes(units: &[u16]) -> (r: Vec<u8>)
    ensures
        r@ == le_bytes(units@),
{
    let mut out: Vec<u8> = Vec::new();
    let mut i: usize = 0;
    while i < units.len()
        invariant
            i <= units@.len(),
            out@ =~= le_bytes(units@).take(2 * i as int),
        decreases units@.len() - i,
    {
        let u = units[i];
        out.push((u % 256) as u8);
        out.push((u / 256) as u8);
        i += 1;
    }
    assert(le_bytes(units@).take(2 * units@.len() as int) =~= le_bytes(units@));
    out
}

/// The `REG_SZ` bytes for a text.
pub fn string_value(s: &str) -> (r: Vec<u8>)
    ensures
        r@ == spec_string_value(s@),
{
    let w = wide_nul(s);
    units_to_bytes(w.as_slice())
}

/// The `REG_SZ` bytes for the program path that the startup entry holds:
/// `buf` is the module-path buffer and `len` the length the system gave.
/// `None` when the length is zero or fills the whole buffer (a path that
/// may have been cut).
pub fn startup_value(buf: &[u16], len: u32) -> (r: Option<Vec<u8>>)
    requires
        buf@.len() == 512,
    ensures
        (0 < len && len < 512) ==> (r matches Some(v) && v@ == le_bytes(buf@.take(len as int).push(0))),
        !(0 < len && len < 512) ==> r is None,
{
    if len > 0 && (len as usize) < 512 {
        let mut units: Vec<u16> = Vec::new();
        let mut i: usize = 0;
        while i < len as usize
            invariant
                buf@.len() == 512,
                len < 512,
                i <= len,
                units@ =~= buf@.take(i as int),
            decreases len - i,
        {
            units.push(buf[i]);
            i += 1;
        }
        units.push(0);
        Some(units_to_bytes(units.as_slice()))
    } else {
        None
    }
}

proof fn lemma_until_nul_prefix(u: Seq<u16>, i: int)
    requires
        0 <= i <= u.len(),
        forall|j: int| 0 <= j < i ==> u[j] != 0,
        i == u.len() || u[i] == 0,
    ensures
        until_nul(u) == u.take(i),
    decreases i,
{
    if i == 0 {
        assert(u.take(0) =~= Seq::<u16>::empty());
    } else {
        let d = u.drop_first();
        assert forall|j: int| 0 <= j < i - 1 implies d[j] != 0 by {
            assert(d[j] == u[j + 1]);
        }
        lemma_until_nul_prefix(d, i - 1);
        assert(u.take(i) =~= seq![u[0]] + d.take(i - 1));
    }
}

/// Reads `REG_SZ` bytes back as text (the `data_size` bytes the query
/// returned).
pub fn read_string_value(data: &[u8]) -> (r: Option<String>)
    ensures
        r matches Some(s) ==> spec_read_string(data@) == Some(s@),
        r is None <==> spec_read_string(data@) is None,
{
    if data.len() < 2 {
        return None;
    }
    let n = data.len();
    let count = n / 2;
    let ghost all = units_of(data@);
    let mut units: Vec<u16> = Vec::new();
    let mut i: usize = 0;
    while i < count
        invariant
            count == data@.len() / 2,
            data@.len() <= usize::MAX,
            all == units_of(data@),
            i <= count,
            units@ =~= all.take(i as int),
            forall|j: int| 0 <= j < i ==> all[j] != 0,
        ensures
            i == count || all[i as int] == 0,
        decreases count - i,
    {
        assert(2 * i + 1 < data@.len());
        let u = (data[2 * i] as u32 + 256 * data[2 * i + 1] as u32) as u16;
        assert(u == all[i as int]);
        if u == 0 {
            break;
        }
        units.push(u);
        i += 1;
    }
    proof {
        lemma_until_nul_prefix(all, i as int);
    }
    Some(utf16_to_string(units.as_slice()))
}

/// The `REG_DWORD` bytes for a number.
pub fn dword_value(v: u32) -> (r: Vec<u8>)
    ensures
        r@ == spec_u32_to_le_bytes(v),
{
    u32_to_le_bytes(v)
}

/// Reads `REG_DWORD` bytes back as a number.
pub fn read_dword_value(data: &[u8]) -> (r: Option<u32>)
    ensures
        r == spec_read_dword(data@),
{
    if data.len() == 4 {
        Some(u32_from_le_bytes(data))
    } else {
        None
    }
}

proof fn lemma_units_of_le_bytes(u: Seq<u16>)
    ensures
        units_of(le_bytes(u)) == u,
{
    let b = le_bytes(u);
    assert forall|i: int| 0 <= i < u.len() implies #[trigger] units_of(b)[i] == u[i] by {
        assert((2 * i) / 2 == i);
        assert((2 * i + 1) / 2 == i);
        assert((2 * i) % 2 == 0);
        assert((2 * i + 1) % 2 == 1);
        assert(b[2 * i] == (u[i] % 256) as u8);
        assert(b[2 * i + 1] == (u[i] / 256) as u8);
    }
    assert(units_of(b) =~= u);
}

proof fn lemma_until_nul_push(w: Seq<u16>)
    requires
        !w.contains(0u16),
    ensures
        until_nul(w.push(0)) == w,
{
    let u = w.push(0);
    assert forall|j: int| 0 <= j < w.len() implies u[j] != 0 by {
        assert(u[j] == w[j]);
        if w[j] == 0 {
            assert(w.contains(0u16));
        }
    }
    lemma_until_nul_prefix(u, w.len() as int);
    assert(u.take(w.len() as int) =~= w);
}

/// A text without NUL characters, stored as a `REG_SZ` value, reads back
/// unchanged.
pub proof fn lemma_string_value_round_trip(s: Seq<char>)
    requires
        !s.contains('\0'),
    ensures
        spec_read_string(spec_string_value(s)) == Some(s),
{
    let w = utf16_of(s);
    lemma_utf16_no_zero(s);
    lemma_units_of_le_bytes(w.push(0));
    lemma_until_nul_push(w);
    lemma_utf16_round_trip(s);
}

/// A number stored as a `REG_DWORD` value reads back unchanged.
pub proof fn lemma_dword_value_round_trip(v: u32)
    ensures
        spec_read_dword(spec_u32_to_le_bytes(v)) == Some(v),
{
    vstd::bytes::lemma_auto_spec_u32_to_from_le_bytes();
}

proof fn lemma_preset_names_have_no_nul(name: Seq<char>)
    requires
        is_preset_name(name),
    ensures
        !name.contains('\0'),
{
    reveal_strlit("Default");
    reveal_strlit("All White");
    reveal_strlit("All Green");
    reveal_strlit("High Contrast");
    let i = choose|i: int| 0 <= i < 4 && preset_table()[i].0 == name;
    if name.contains('\0') {
        let k = choose|k: int| 0 <= k < name.len() && name[k] == '\0';
        assert(i == 0 || i == 1 || i == 2 || i == 3);
    }
}

/// Saving a valid configuration (preset as `REG_SZ`, background and text
/// scale as `REG_DWORD`) and loading it back gives the same configuration.
pub proof fn lemma_saved_config_loads_back(c: ConfigView)
    requires
        config_valid(c),
    ensures
        spec_config_from_values(
            spec_read_string(spec_string_value(c.preset)),
            spec_read_dword(spec_u32_to_le_bytes(if c.background { 1u32 } else { 0u32 })),
            spec_read_dword(spec_u32_to_le_bytes(c.text_scale)),
        ) == c,
{
    lemma_preset_names_have_no_nul(c.preset);
    lemma_string_value_round_trip(c.preset);
    lemma_dword_value_round_trip(if c.background { 1u32 } else { 0u32 });
    lemma_dword_value_round_trip(c.text_scale);
}

} // verus!
