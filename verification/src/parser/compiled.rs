//! The compiled (binary) form of a terminfo entry.
//!
//! [`parse`] decodes the byte layout — header, names, booleans, numbers,
//! string offsets, string table, and the optional extended section — into a
//! raw [`Database`], exactly as the layout specification
//! [`spec_parse`] describes it.  [`Database::into_database`] then resolves
//! ordinals to canonical names and offsets to byte strings, as
//! [`spec_build`] describes, yielding a [`crate::database::Database`].

use vstd::prelude::*;

use crate::capability::{Value, ValueV};
use crate::database::{insert_first, BuilderV, DbV, ParseError};
use crate::names;

verus! {

/// The signed 16-bit little-endian value at `off`.
pub open spec fn le16(b: Seq<u8>, off: int) -> int {
    let v = b[off] + 256 * b[off + 1];
    if v >= 0x8000 {
        v - 0x10000
    } else {
        v
    }
}

/// The signed 32-bit little-endian value at `off`.
pub open spec fn le32(b: Seq<u8>, off: int) -> int {
    let v = b[off] + 256 * b[off + 1] + 0x10000 * b[off + 2] + 0x1000000 * b[off + 3];
    if v >= 0x8000_0000 {
        v - 0x1_0000_0000
    } else {
        v
    }
}

/// The signed slot of width `w` bytes at `off`.
pub open spec fn slot(b: Seq<u8>, off: int, w: int) -> int {
    if w == 2 {
        le16(b, off)
    } else {
        le32(b, off)
    }
}

/// A header count, normalized: minus one stands for zero; anything lower
/// is malformed.
pub open spec fn norm_count(n: int) -> Option<int> {
    if n == -1 {
        Some(0)
    } else if n >= 0 {
        Some(n)
    } else {
        None
    }
}

/// The decoded header: slot width in bytes and the five section counts.
#[verifier::ext_equal]
pub ghost struct HeaderV {
    pub w: int,
    pub name_size: int,
    pub bool_count: int,
    pub num_count: int,
    pub string_count: int,
    pub table_size: int,
}

/// The header the first twelve bytes carry, when the magic and the counts
/// are sound.
pub open spec fn spec_header(b: Seq<u8>) -> Option<HeaderV> {
    if b.len() < 12 {
        None
    } else {
        let w: int = if b[0] == 0x1a && b[1] == 0x01 {
            2
        } else if b[0] == 0x1e && b[1] == 0x02 {
            4
        } else {
            0
        };
        if w == 0 {
            None
        } else {
            match (
                norm_count(le16(b, 2)),
                norm_count(le16(b, 4)),
                norm_count(le16(b, 6)),
                norm_count(le16(b, 8)),
                norm_count(le16(b, 10)),
            ) {
                (
                    Some(name_size),
                    Some(bool_count),
                    Some(num_count),
                    Some(string_count),
                    Some(table_size),
                ) => Some(
                    HeaderV { w, name_size, bool_count, num_count, string_count, table_size },
                ),
                _ => None,
            }
        }
    }
}

/// The boolean section at `off`: one byte each, which must be zero or one.
pub open spec fn bools_of(b: Seq<u8>, off: int, cnt: int) -> Option<Seq<bool>> {
    if forall|i: int| 0 <= i < cnt ==> #[trigger] b[off + i] <= 1 {
        Some(Seq::new(cnt as nat, |i: int| b[off + i] == 1))
    } else {
        None
    }
}

/// The slot section at `off`: `cnt` signed values of width `w`, each of
/// which must be at least minus two.
pub open spec fn slots_of(b: Seq<u8>, off: int, cnt: int, w: int) -> Option<Seq<i32>> {
    if forall|i: int| 0 <= i < cnt ==> #[trigger] slot(b, off + w * i, w) >= -2 {
        Some(Seq::new(cnt as nat, |i: int| slot(b, off + w * i, w) as i32))
    } else {
        None
    }
}

/// The index of the first occurrence of `x` in `s`.
pub open spec fn first_byte(s: Seq<u8>, x: u8) -> Option<int>
    decreases s.len(),
{
    if s.len() == 0 {
        None
    } else if s[0] == x {
        Some(0)
    } else {
        match first_byte(s.subrange(1, s.len() as int), x) {
            Some(k) => Some(k + 1),
            None => None,
        }
    }
}

/// What [`first_byte`] finds: the position of `x` with none before it, or
/// nothing when `x` does not occur.
pub proof fn lemma_first_byte(s: Seq<u8>, x: u8)
    ensures
        match first_byte(s, x) {
            Some(k) => 0 <= k < s.len() && s[k] == x && forall|j: int| 0 <= j < k ==> s[j] != x,
            None => forall|j: int| 0 <= j < s.len() ==> s[j] != x,
        },
    decreases s.len(),
{
    if s.len() > 0 && s[0] != x {
        let t = s.subrange(1, s.len() as int);
        lemma_first_byte(t, x);
        match first_byte(t, x) {
            Some(k) => {
                assert(s[k + 1] == t[k]);
                assert forall|j: int| 0 <= j < k + 1 implies s[j] != x by {
                    if j >= 1 {
                        assert(s[j] == t[j - 1]);
                    }
                }
            },
            None => {
                assert forall|j: int| 0 <= j < s.len() implies s[j] != x by {
                    if j >= 1 {
                        assert(s[j] == t[j - 1]);
                    }
                }
            },
        }
    }
}

/// A position that is `x` with none before it is the one [`first_byte`]
/// finds.
pub proof fn lemma_first_byte_at(s: Seq<u8>, x: u8, k: int)
    requires
        0 <= k < s.len(),
        s[k] == x,
        forall|j: int| 0 <= j < k ==> s[j] != x,
    ensures
        first_byte(s, x) == Some(k),
    decreases s.len(),
{
    if k > 0 {
        lemma_first_byte_at(s.subrange(1, s.len() as int), x, k - 1);
    }
}

/// `s` split on the byte `x`: the fragments between occurrences, with the
/// leading and trailing ones included even when empty.
pub open spec fn split_byte(s: Seq<u8>, x: u8) -> Seq<Seq<u8>>
    decreases s.len(),
        via split_byte_decreases
{
    match first_byte(s, x) {
        None => seq![s],
        Some(k) => seq![s.take(k)] + split_byte(s.subrange(k + 1, s.len() as int), x),
    }
}

#[via_fn]
proof fn split_byte_decreases(s: Seq<u8>, x: u8) {
    lemma_first_byte(s, x);
}

/// A raw extended section: its value slots, its name offsets, and its
/// table.
#[verifier::ext_equal]
pub ghost struct ExtV {
    pub booleans: Seq<bool>,
    pub numbers: Seq<i32>,
    pub strings: Seq<i32>,
    pub name_offsets: Seq<i32>,
    pub table: Seq<u8>,
}

/// A raw compiled entry: the names block, the three standard sections with
/// their table, and the extended section when one is present.
#[verifier::ext_equal]
pub ghost struct RawV {
    pub names: Seq<u8>,
    pub booleans: Seq<bool>,
    pub numbers: Seq<i32>,
    pub strings: Seq<i32>,
    pub table: Seq<u8>,
    pub extended: Option<ExtV>,
}

/// The extended section read from position `p` on, with slot width `w`.
pub open spec fn spec_parse_ext(b: Seq<u8>, p: int, w: int) -> Option<ExtV> {
    if p + 10 > b.len() {
        None
    } else {
        match (
            norm_count(le16(b, p)),
            norm_count(le16(b, p + 2)),
            norm_count(le16(b, p + 4)),
            norm_count(le16(b, p + 6)),
            norm_count(le16(b, p + 8)),
        ) {
            (Some(nb), Some(nn), Some(ns), Some(_no), Some(nt)) => {
                let q0 = p + 10;
                let q1 = q0 + nb;
                let q2 = q1 + (if nb % 2 == 1 {
                    1int
                } else {
                    0int
                });
                let q3 = q2 + nn * w;
                let q4 = q3 + ns * w;
                let q5 = q4 + (nb + nn + ns) * w;
                let q6 = q5 + nt;
                if q6 > b.len() {
                    None
                } else {
                    match (
                        bools_of(b, q0, nb),
                        slots_of(b, q2, nn, w),
                        slots_of(b, q3, ns, w),
                        slots_of(b, q4, nb + nn + ns, w),
                    ) {
                        (Some(booleans), Some(numbers), Some(strings), Some(name_offsets)) => Some(
                            ExtV {
                                booleans,
                                numbers,
                                strings,
                                name_offsets,
                                table: b.subrange(q5, q6),
                            },
                        ),
                        _ => None,
                    }
                }
            },
            _ => None,
        }
    }
}

/// The whole compiled layout: what [`parse`] reads from a buffer.
///
/// Bytes after the standard section must form a sound extended section;
/// bytes after the extended table are ignored.
pub open spec fn spec_parse(b: Seq<u8>) -> Option<RawV> {
    match spec_header(b) {
        None => None,
        Some(h) => {
            let p_bools = 12 + h.name_size;
            let pad1: int = if (h.name_size + h.bool_count) % 2 == 1 {
                1
            } else {
                0
            };
            let p_nums = p_bools + h.bool_count + pad1;
            let p_strs = p_nums + h.num_count * h.w;
            let p_table = p_strs + h.string_count * h.w;
            let p_end = p_table + h.table_size;
            if p_end > b.len() {
                None
            } else {
                let names_block = b.subrange(12, p_bools);
                match first_byte(names_block, 0) {
                    None => None,
                    Some(k) => {
                        let names = names_block.take(k);
                        match (
                            bools_of(b, p_bools, h.bool_count),
                            slots_of(b, p_nums, h.num_count, h.w),
                            slots_of(b, p_strs, h.string_count, h.w),
                        ) {
                            (Some(booleans), Some(numbers), Some(strings)) => {
                                let table = b.subrange(p_table, p_end);
                                if p_end == b.len() {
                                    Some(
                                        RawV {
                                            names,
                                            booleans,
                                            numbers,
                                            strings,
                                            table,
                                            extended: None,
                                        },
                                    )
                                } else {
                                    let pad2: int = if h.table_size % 2 == 1 {
                                        1
                                    } else {
                                        0
                                    };
                                    match spec_parse_ext(b, p_end + pad2, h.w) {
                                        Some(ext) => Some(
                                            RawV {
                                                names,
                                                booleans,
                                                numbers,
                                                strings,
                                                table,
                                                extended: Some(ext),
                                            },
                                        ),
                                        None => None,
                                    }
                                }
                            },
                            _ => None,
                        }
                    },
                }
            }
        },
    }
}

/// An ASCII whitespace byte, as trimmed from the names header.
pub open spec fn is_ws(b: u8) -> bool {
    b == 32 || b == 9 || b == 10 || b == 13 || b == 11 || b == 12
}

/// `s` without leading ASCII whitespace.
pub open spec fn trim_front(s: Seq<u8>) -> Seq<u8>
    decreases s.len(),
{
    if s.len() > 0 && is_ws(s[0]) {
        trim_front(s.subrange(1, s.len() as int))
    } else {
        s
    }
}

/// `s` without trailing ASCII whitespace.
pub open spec fn trim_back(s: Seq<u8>) -> Seq<u8>
    decreases s.len(),
{
    if s.len() > 0 && is_ws(s.last()) {
        trim_back(s.drop_last())
    } else {
        s
    }
}

/// `s` without leading and trailing ASCII whitespace.
pub open spec fn trim_ascii(s: Seq<u8>) -> Seq<u8> {
    trim_back(trim_front(s))
}

/// When the first `k` bytes are whitespace and the next is not (or the end
/// is reached), trimming the front drops exactly those `k`.
proof fn lemma_trim_front_at(s: Seq<u8>, k: int)
    requires
        0 <= k <= s.len(),
        forall|j: int| 0 <= j < k ==> is_ws(s[j]),
        k == s.len() || !is_ws(s[k]),
    ensures
        trim_front(s) == s.skip(k),
    decreases k,
{
    if k == 0 {
        assert(s.skip(0) =~= s);
    } else {
        let t = s.subrange(1, s.len() as int);
        lemma_trim_front_at(t, k - 1);
        assert(t.skip(k - 1) =~= s.skip(k));
    }
}

/// When the last bytes from `k` on are whitespace and the one before is
/// not (or the start is reached), trimming the back keeps exactly `k`.
proof fn lemma_trim_back_at(s: Seq<u8>, k: int)
    requires
        0 <= k <= s.len(),
        forall|j: int| k <= j < s.len() ==> is_ws(s[j]),
        k == 0 || !is_ws(s[k - 1]),
    ensures
        trim_back(s) == s.take(k),
    decreases s.len(),
{
    if k < s.len() {
        lemma_trim_back_at(s.drop_last(), k);
        assert(s.drop_last().take(k) =~= s.take(k));
    } else {
        assert(s.take(k) =~= s);
    }
}

/// What the bytes of one decoded capability name or value decode to as
/// text.  Relies on `String::from_utf8_lossy`: the result is a function of
/// the bytes alone.
pub uninterp spec fn utf8_lossy(b: Seq<u8>) -> Seq<char>;

/// The characters ASCII bytes spell.
pub open spec fn ascii_chars(b: Seq<u8>) -> Seq<char> {
    b.map_values(|x: u8| x as char)
}

/// Decodes bytes as text, replacing invalid sequences.
///
/// Relies on `String::from_utf8_lossy`: ill-formed UTF-8 is replaced with
/// the replacement character, valid UTF-8 — so in particular ASCII — is
/// kept as it is.
#[verifier::external_body]
fn lossy_string(b: &Vec<u8>) -> (r: String)
    ensures
        r@ == utf8_lossy(b@),
        (forall|i: int| 0 <= i < b@.len() ==> b@[i] < 128) ==> r@ == ascii_chars(b@),
{
    String::from_utf8_lossy(b).into_owned()
}

/// The bytes of the string value at `off`: everything up to, and not
/// including, the first NUL; malformed when `off` is outside the table or
/// no NUL follows.
pub open spec fn prefix_to_nul(t: Seq<u8>, off: int) -> Option<Seq<u8>> {
    if 0 <= off <= t.len() {
        match first_byte(t.skip(off), 0) {
            Some(k) => Some(t.subrange(off, off + k)),
            None => None,
        }
    } else {
        None
    }
}

/// The standard boolean slots folded into the map: each set slot whose
/// ordinal the boolean table knows puts a flag under its long name; the
/// first write of a name wins.
pub open spec fn add_std_bools(m: Map<Seq<char>, ValueV>, bools: Seq<bool>, i: int) -> Map<
    Seq<char>,
    ValueV,
>
    decreases bools.len() - i,
{
    if i < 0 || i >= bools.len() {
        m
    } else {
        let m2 = if bools[i] {
            match names::boolean_long(i) {
                Some(l) => insert_first(m, l@, ValueV::True),
                None => m,
            }
        } else {
            m
        };
        add_std_bools(m2, bools, i + 1)
    }
}

/// The standard number slots folded into the map: each non-absent slot
/// whose ordinal the number table knows puts its value under its long
/// name.
pub open spec fn add_std_nums(m: Map<Seq<char>, ValueV>, nums: Seq<i32>, i: int) -> Map<
    Seq<char>,
    ValueV,
>
    decreases nums.len() - i,
{
    if i < 0 || i >= nums.len() {
        m
    } else {
        let m2 = if nums[i] >= 0 {
            match names::number_long(i) {
                Some(l) => insert_first(m, l@, ValueV::Num(nums[i])),
                None => m,
            }
        } else {
            m
        };
        add_std_nums(m2, nums, i + 1)
    }
}

/// The standard string slots folded into the map: each non-absent offset
/// whose ordinal the string table knows reads its NUL-terminated value
/// from the table; an offset outside the table, or one with no NUL after
/// it, is malformed.
pub open spec fn add_std_strs(
    m: Map<Seq<char>, ValueV>,
    strs: Seq<i32>,
    table: Seq<u8>,
    i: int,
) -> Option<Map<Seq<char>, ValueV>>
    decreases strs.len() - i,
{
    if i < 0 || i >= strs.len() {
        Some(m)
    } else {
        if strs[i] >= 0 {
            match names::string_long(i) {
                Some(l) => match prefix_to_nul(table, strs[i] as int) {
                    Some(bytes) => add_std_strs(
                        insert_first(m, l@, ValueV::Str(bytes)),
                        strs,
                        table,
                        i + 1,
                    ),
                    None => None,
                },
                None => add_std_strs(m, strs, table, i + 1),
            }
        } else {
            add_std_strs(m, strs, table, i + 1)
        }
    }
}

/// How many slots are not absent.
pub open spec fn count_nonneg(s: Seq<i32>, i: int) -> int
    decreases s.len() - i,
{
    if i < 0 || i >= s.len() {
        0
    } else {
        (if s[i] >= 0 {
            1int
        } else {
            0int
        }) + count_nonneg(s, i + 1)
    }
}

/// The fragments from `k` on: empty when fewer than `k` exist.
pub open spec fn names_after(frags: Seq<Seq<u8>>, k: int) -> Seq<Seq<u8>> {
    if 0 <= k <= frags.len() {
        frags.skip(k)
    } else {
        Seq::empty()
    }
}

/// The name fragments of an extended section: its table split on NUL,
/// after the fragments occupied by the string values — one for each
/// non-absent string slot.
pub open spec fn ext_names(x: ExtV) -> Seq<Seq<u8>> {
    names_after(split_byte(x.table, 0), count_nonneg(x.strings, 0))
}

/// The extended boolean slots folded into the map, under the decoded
/// names; a set slot with no name fragment is malformed.
pub open spec fn add_ext_bools(
    m: Map<Seq<char>, ValueV>,
    bools: Seq<bool>,
    en: Seq<Seq<u8>>,
    i: int,
) -> Option<Map<Seq<char>, ValueV>>
    decreases bools.len() - i,
{
    if i < 0 || i >= bools.len() {
        Some(m)
    } else {
        if bools[i] {
            if i < en.len() {
                add_ext_bools(insert_first(m, utf8_lossy(en[i]), ValueV::True), bools, en, i + 1)
            } else {
                None
            }
        } else {
            add_ext_bools(m, bools, en, i + 1)
        }
    }
}

/// The extended number slots folded into the map, under the decoded names
/// from `base` on.
pub open spec fn add_ext_nums(
    m: Map<Seq<char>, ValueV>,
    base: int,
    nums: Seq<i32>,
    en: Seq<Seq<u8>>,
    i: int,
) -> Option<Map<Seq<char>, ValueV>>
    decreases nums.len() - i,
{
    if i < 0 || i >= nums.len() {
        Some(m)
    } else {
        if nums[i] >= 0 {
            if base + i < en.len() {
                add_ext_nums(
                    insert_first(m, utf8_lossy(en[base + i]), ValueV::Num(nums[i])),
                    base,
                    nums,
                    en,
                    i + 1,
                )
            } else {
                None
            }
        } else {
            add_ext_nums(m, base, nums, en, i + 1)
        }
    }
}

/// The extended string slots folded into the map, under the decoded names
/// from `base` on, with their values read from the extended table.
pub open spec fn add_ext_strs(
    m: Map<Seq<char>, ValueV>,
    base: int,
    strs: Seq<i32>,
    table: Seq<u8>,
    en: Seq<Seq<u8>>,
    i: int,
) -> Option<Map<Seq<char>, ValueV>>
    decreases strs.len() - i,
{
    if i < 0 || i >= strs.len() {
        Some(m)
    } else {
        if strs[i] >= 0 {
            if base + i < en.len() {
                match prefix_to_nul(table, strs[i] as int) {
                    Some(bytes) => add_ext_strs(
                        insert_first(m, utf8_lossy(en[base + i]), ValueV::Str(bytes)),
                        base,
                        strs,
                        table,
                        en,
                        i + 1,
                    ),
                    None => None,
                }
            } else {
                None
            }
        } else {
            add_ext_strs(m, base, strs, table, en, i + 1)
        }
    }
}

/// The aliases a names header's middle fields spell.
pub open spec fn alias_texts(fields: Seq<Seq<u8>>) -> Seq<Seq<char>> {
    fields.map_values(|f: Seq<u8>| utf8_lossy(trim_ascii(f)))
}

/// What a raw compiled entry resolves to: names and description from the
/// names block, and the capability map from the slots, standard first,
/// then extended, with the first write of each name winning.  Malformed
/// when the terminal name is empty, a used offset points outside its
/// table or at no NUL-terminated value, or a present extended slot has no
/// name fragment.
pub open spec fn spec_build(raw: RawV) -> Option<DbV> {
    let fields = split_byte(raw.names, 124);
    let name_b = trim_ascii(fields[0]);
    if name_b.len() == 0 {
        None
    } else {
        let m1 = add_std_bools(Map::empty(), raw.booleans, 0);
        let m2 = add_std_nums(m1, raw.numbers, 0);
        match add_std_strs(m2, raw.strings, raw.table, 0) {
            None => None,
            Some(m3) => {
                let entries_opt = match raw.extended {
                    None => Some(m3),
                    Some(x) => {
                        let en = ext_names(x);
                        match add_ext_bools(m3, x.booleans, en, 0) {
                            None => None,
                            Some(m4) => match add_ext_nums(
                                m4,
                                x.booleans.len() as int,
                                x.numbers,
                                en,
                                0,
                            ) {
                                None => None,
                                Some(m5) => add_ext_strs(
                                    m5,
                                    x.booleans.len() + x.numbers.len() as int,
                                    x.strings,
                                    x.table,
                                    en,
                                    0,
                                ),
                            },
                        }
                    },
                };
                match entries_opt {
                    None => None,
                    Some(entries) => Some(
                        DbV {
                            name: utf8_lossy(name_b),
                            aliases: if fields.len() >= 2 {
                                alias_texts(fields.subrange(1, fields.len() - 1))
                            } else {
                                Seq::empty()
                            },
                            description: if fields.len() >= 2 {
                                utf8_lossy(trim_ascii(fields.last()))
                            } else {
                                Seq::empty()
                            },
                            entries,
                        },
                    ),
                }
            },
        }
    }
}

/// What a whole buffer decodes to: the layout read by [`spec_parse`],
/// resolved by [`spec_build`].
pub open spec fn spec_decode(b: Seq<u8>) -> Option<DbV> {
    match spec_parse(b) {
        None => None,
        Some(raw) => spec_build(raw),
    }
}

/// The standard sections of a compiled entry.
#[derive(Eq, PartialEq, Clone, Debug)]
pub struct Standard {
    booleans: Vec<bool>,
    numbers: Vec<i32>,
    strings: Vec<i32>,
    table: Vec<u8>,
}

/// The extended section of a compiled entry.
#[derive(Eq, PartialEq, Clone, Debug)]
pub struct Extended {
    booleans: Vec<bool>,
    numbers: Vec<i32>,
    strings: Vec<i32>,
    names: Vec<i32>,
    table: Vec<u8>,
}

/// A parsed compiled entry, before ordinals and offsets are resolved.
#[derive(Eq, PartialEq, Clone, Debug)]
pub struct Database {
    names: Vec<u8>,
    standard: Standard,
    extended: Option<Extended>,
}

impl View for Database {
    type V = RawV;

    closed spec fn view(&self) -> RawV {
        RawV {
            names: self.names@,
            booleans: self.standard.booleans@,
            numbers: self.standard.numbers@,
            strings: self.standard.strings@,
            table: self.standard.table@,
            extended: match self.extended {
                Some(ref e) => Some(
                    ExtV {
                        booleans: e.booleans@,
                        numbers: e.numbers@,
                        strings: e.strings@,
                        name_offsets: e.names@,
                        table: e.table@,
                    },
                ),
                None => None,
            },
        }
    }
}

/// The width in bits of the numeric slots a magic announces.
pub fn number_size(magic: &[u8]) -> (r: usize)
    requires
        magic@.len() >= 2,
        magic@[1] == 0x01 || magic@[1] == 0x02,
    ensures
        magic@[1] == 0x01 ==> r == 16,
        magic@[1] == 0x02 ==> r == 32,
{
    if magic[1] == 0x01 {
        16
    } else {
        32
    }
}

/// Reads the signed 16-bit little-endian value at `off`.
fn read16(b: &[u8], off: usize) -> (r: i32)
    requires
        off + 2 <= b@.len(),
    ensures
        r as int == le16(b@, off as int),
{
    let v: u32 = (b[off] as u32) + 256 * (b[off + 1] as u32);
    if v >= 0x8000 {
        (v as i32) - 0x10000
    } else {
        v as i32
    }
}

/// Reads the signed slot of width `w` bytes at `off`.
fn read_slot(b: &[u8], off: usize, w: usize) -> (r: i32)
    requires
        w == 2 || w == 4,
        off + w <= b@.len(),
    ensures
        r as int == slot(b@, off as int, w as int),
{
    if w == 2 {
        read16(b, off)
    } else {
        let v: u32 = (b[off] as u32) + 256 * (b[off + 1] as u32) + 0x10000 * (b[off + 2] as u32)
            + 0x1000000 * (b[off + 3] as u32);
        if v >= 0x8000_0000 {
            ((v as i64) - 0x1_0000_0000i64) as i32
        } else {
            v as i32
        }
    }
}

/// Reads a header count, normalizing minus one to zero.
fn read_count(b: &[u8], off: usize) -> (r: Result<usize, ParseError>)
    requires
        off + 2 <= b@.len(),
    ensures
        match r {
            Ok(n) => norm_count(le16(b@, off as int)) == Some(n as int) && n <= 0x7fff,
            Err(_) => norm_count(le16(b@, off as int)) is None,
        },
{
    let v = read16(b, off);
    if v == -1 {
        Ok(0)
    } else if v >= 0 {
        Ok(v as usize)
    } else {
        Err(ParseError)
    }
}

/// Reads the boolean section at `off`.
fn read_bools(b: &[u8], off: usize, cnt: usize) -> (r: Result<Vec<bool>, ParseError>)
    requires
        off + cnt <= b@.len(),
    ensures
        match r {
            Ok(v) => bools_of(b@, off as int, cnt as int) == Some(v@),
            Err(_) => bools_of(b@, off as int, cnt as int) is None,
        },
{
    let blen: usize = b.len();
    let mut out: Vec<bool> = Vec::new();
    let mut i: usize = 0;
    while i < cnt
        invariant
            i <= cnt,
            b@.len() == blen,
            off + cnt <= b@.len(),
            out@.len() == i,
            forall|j: int| 0 <= j < i ==> #[trigger] b@[off + j] <= 1,
            forall|j: int| 0 <= j < i ==> #[trigger] out@[j] == (b@[off + j] == 1),
        decreases cnt - i,
    {
        let byte = b[off + i];
        if byte > 1 {
            return Err(ParseError);
        }
        out.push(byte == 1);
        i = i + 1;
    }
    proof {
        assert(bools_of(b@, off as int, cnt as int) matches Some(s) && s =~= out@);
    }
    Ok(out)
}

/// Reads `cnt` signed slots of width `w` at `off`.
fn read_slots(b: &[u8], off: usize, cnt: usize, w: usize) -> (r: Result<Vec<i32>, ParseError>)
    requires
        w == 2 || w == 4,
        cnt <= 0x2_0000,
        off + cnt * w <= b@.len(),
    ensures
        match r {
            Ok(v) => slots_of(b@, off as int, cnt as int, w as int) == Some(v@),
            Err(_) => slots_of(b@, off as int, cnt as int, w as int) is None,
        },
{
    let blen: usize = b.len();
    let mut out: Vec<i32> = Vec::new();
    let mut i: usize = 0;
    while i < cnt
        invariant
            i <= cnt,
            w == 2 || w == 4,
            cnt <= 0x2_0000,
            b@.len() == blen,
            off + cnt * w <= b@.len(),
            out@.len() == i,
            forall|j: int| 0 <= j < i ==> #[trigger] slot(b@, off + w * j, w as int) >= -2,
            forall|j: int|
                0 <= j < i ==> #[trigger] out@[j] as int == slot(b@, off + w * j, w as int),
        decreases cnt - i,
    {
        proof {
            assert(off + w * (i as int) + w <= off + cnt * w) by (nonlinear_arith)
                requires
                    i < cnt,
                    w == 2 || w == 4,
            ;
        }
        let v = read_slot(b, off + w * i, w);
        if v < -2 {
            return Err(ParseError);
        }
        out.push(v);
        i = i + 1;
    }
    proof {
        assert(slots_of(b@, off as int, cnt as int, w as int) matches Some(s) && s =~= out@);
    }
    Ok(out)
}

/// Copies the bytes between `from` and `to`.
fn copy_range(b: &[u8], from: usize, to: usize) -> (r: Vec<u8>)
    requires
        from <= to <= b@.len(),
    ensures
        r@ == b@.subrange(from as int, to as int),
{
    let mut out: Vec<u8> = Vec::new();
    let mut i: usize = from;
    while i < to
        invariant
            from <= i <= to <= b@.len(),
            out@ == b@.subrange(from as int, i as int),
        decreases to - i,
    {
        out.push(b[i]);
        assert(out@ =~= b@.subrange(from as int, i as int + 1));
        i = i + 1;
    }
    out
}

/// Finds the first occurrence of `x` between `from` and `to`.
fn find_byte(b: &[u8], from: usize, to: usize, x: u8) -> (r: Option<usize>)
    requires
        from <= to <= b@.len(),
    ensures
        match r {
            Some(k) => first_byte(b@.subrange(from as int, to as int), x) == Some(
                k as int - from as int,
            ) && from <= k < to,
            None => first_byte(b@.subrange(from as int, to as int), x) is None,
        },
{
    let ghost s = b@.subrange(from as int, to as int);
    let mut i: usize = from;
    while i < to
        invariant
            from <= i <= to <= b@.len(),
            s == b@.subrange(from as int, to as int),
            forall|j: int| from <= j < i ==> b@[j] != x,
        decreases to - i,
    {
        if b[i] == x {
            proof {
                assert(s[i as int - from as int] == x);
                assert(forall|j: int| 0 <= j < i - from ==> s[j] != x);
                lemma_first_byte_at(s, x, i as int - from as int);
            }
            return Some(i);
        }
        i = i + 1;
    }
    proof {
        lemma_first_byte(s, x);
        assert(forall|j: int| 0 <= j < s.len() ==> s[j] != x);
    }
    None
}

/// Parses a compiled entry's byte layout.
#[verifier::rlimit(100)]
pub fn parse(input: &[u8]) -> (r: Result<Database, ParseError>)
    ensures
        match spec_parse(input@) {
            Some(raw) => r matches Ok(db) && db@ == raw,
            None => r is Err,
        },
{
    let b = input;
    if b.len() < 12 {
        return Err(ParseError);
    }
    let w: usize = if b[0] == 0x1a && b[1] == 0x01 {
        2
    } else if b[0] == 0x1e && b[1] == 0x02 {
        4
    } else {
        return Err(ParseError);
    };
    let name_size = match read_count(b, 2) {
        Ok(n) => n,
        Err(e) => {
            return Err(e);
        },
    };
    let bool_count = match read_count(b, 4) {
        Ok(n) => n,
        Err(e) => {
            return Err(e);
        },
    };
    let num_count = match read_count(b, 6) {
        Ok(n) => n,
        Err(e) => {
            return Err(e);
        },
    };
    let string_count = match read_count(b, 8) {
        Ok(n) => n,
        Err(e) => {
            return Err(e);
        },
    };
    let table_size = match read_count(b, 10) {
        Ok(n) => n,
        Err(e) => {
            return Err(e);
        },
    };
    proof {
        assert(spec_header(b@) == Some(
            HeaderV {
                w: w as int,
                name_size: name_size as int,
                bool_count: bool_count as int,
                num_count: num_count as int,
                string_count: string_count as int,
                table_size: table_size as int,
            },
        ));
    }
    let pad1: usize = if (name_size + bool_count) % 2 == 1 {
        1
    } else {
        0
    };
    let needed: usize = name_size + bool_count + pad1 + num_count * w + string_count * w
        + table_size;
    if needed > b.len() - 12 {
        return Err(ParseError);
    }
    let p_bools: usize = 12 + name_size;
    let p_nums: usize = p_bools + bool_count + pad1;
    let p_strs: usize = p_nums + num_count * w;
    let p_table: usize = p_strs + string_count * w;
    let p_end: usize = p_table + table_size;
    let names: Vec<u8> = match find_byte(b, 12, p_bools, 0) {
        Some(k) => copy_range(b, 12, k),
        None => {
            return Err(ParseError);
        },
    };
    proof {
        let names_block = b@.subrange(12, p_bools as int);
        assert(names_block.take(first_byte(names_block, 0)->Some_0) =~= names@);
    }
    let booleans = match read_bools(b, p_bools, bool_count) {
        Ok(v) => v,
        Err(e) => {
            return Err(e);
        },
    };
    let numbers = match read_slots(b, p_nums, num_count, w) {
        Ok(v) => v,
        Err(e) => {
            return Err(e);
        },
    };
    let strings = match read_slots(b, p_strs, string_count, w) {
        Ok(v) => v,
        Err(e) => {
            return Err(e);
        },
    };
    let table = copy_range(b, p_table, p_end);
    let extended: Option<Extended> = if p_end == b.len() {
        None
    } else {
        let pad2: usize = if table_size % 2 == 1 {
            1
        } else {
            0
        };
        match parse_ext(b, p_end + pad2, w) {
            Ok(e) => Some(e),
            Err(e) => {
                return Err(e);
            },
        }
    };
    let db = Database {
        names,
        standard: Standard { booleans, numbers, strings, table },
        extended,
    };
    proof {
        assert(db@ =~~= spec_parse(input@)->Some_0);
    }
    Ok(db)
}

/// Parses the extended section from position `p` on.
#[verifier::rlimit(100)]
fn parse_ext(b: &[u8], p: usize, w: usize) -> (r: Result<Extended, ParseError>)
    requires
        w == 2 || w == 4,
        p <= b@.len(),
    ensures
        match spec_parse_ext(b@, p as int, w as int) {
            Some(ext) => r matches Ok(e) && e.booleans@ == ext.booleans && e.numbers@
                == ext.numbers && e.strings@ == ext.strings && e.names@ == ext.name_offsets
                && e.table@ == ext.table,
            None => r is Err,
        },
{
    if p > b.len() || b.len() - p < 10 {
        return Err(ParseError);
    }
    let nb = match read_count(b, p) {
        Ok(n) => n,
        Err(e) => {
            return Err(e);
        },
    };
    let nn = match read_count(b, p + 2) {
        Ok(n) => n,
        Err(e) => {
            return Err(e);
        },
    };
    let ns = match read_count(b, p + 4) {
        Ok(n) => n,
        Err(e) => {
            return Err(e);
        },
    };
    let _no = match read_count(b, p + 6) {
        Ok(n) => n,
        Err(e) => {
            return Err(e);
        },
    };
    let nt = match read_count(b, p + 8) {
        Ok(n) => n,
        Err(e) => {
            return Err(e);
        },
    };
    let q0: usize = p + 10;
    let pad: usize = if nb % 2 == 1 {
        1
    } else {
        0
    };
    proof {
        assert(0 <= nn * w <= 0x7fff * 4 && 0 <= ns * w <= 0x7fff * 4 && 0 <= (nb + nn + ns) * w
            <= 3 * 0x7fff * 4) by (nonlinear_arith)
            requires
                0 <= nb <= 0x7fff,
                0 <= nn <= 0x7fff,
                0 <= ns <= 0x7fff,
                w == 2 || w == 4,
        ;
    }
    let needed: usize = nb + pad + nn * w + ns * w + (nb + nn + ns) * w + nt;
    if needed > b.len() - q0 {
        return Err(ParseError);
    }
    let q1: usize = q0 + nb;
    let q2: usize = q1 + pad;
    let q3: usize = q2 + nn * w;
    let q4: usize = q3 + ns * w;
    let q5: usize = q4 + (nb + nn + ns) * w;
    let q6: usize = q5 + nt;
    let booleans = match read_bools(b, q0, nb) {
        Ok(v) => v,
        Err(e) => {
            return Err(e);
        },
    };
    let numbers = match read_slots(b, q2, nn, w) {
        Ok(v) => v,
        Err(e) => {
            return Err(e);
        },
    };
    let strings = match read_slots(b, q3, ns, w) {
        Ok(v) => v,
        Err(e) => {
            return Err(e);
        },
    };
    let name_offsets = match read_slots(b, q4, nb + nn + ns, w) {
        Ok(v) => v,
        Err(e) => {
            return Err(e);
        },
    };
    let table = copy_range(b, q5, q6);
    Ok(Extended { booleans, numbers, strings, names: name_offsets, table })
}


/// The views of a sequence of byte buffers.
pub open spec fn byte_views(s: Seq<Vec<u8>>) -> Seq<Seq<u8>> {
    s.map_values(|f: Vec<u8>| f@)
}

/// Trims ASCII whitespace from both ends.
fn trim_bytes(v: &[u8]) -> (r: Vec<u8>)
    ensures
        r@ == trim_ascii(v@),
{
    let blen: usize = v.len();
    let mut a: usize = 0;
    while a < blen && (v[a] == 32 || v[a] == 9 || v[a] == 10 || v[a] == 13 || v[a] == 11 || v[a]
        == 12)
        invariant
            a <= blen,
            blen == v@.len(),
            forall|j: int| 0 <= j < a ==> is_ws(#[trigger] v@[j]),
        decreases blen - a,
    {
        a = a + 1;
    }
    proof {
        lemma_trim_front_at(v@, a as int);
    }
    if a == blen {
        proof {
            assert(trim_front(v@) =~= Seq::<u8>::empty());
            assert(trim_back(Seq::<u8>::empty()) =~= Seq::<u8>::empty());
        }
        return Vec::new();
    }
    let mut b: usize = blen;
    while b > a + 1 && (v[b - 1] == 32 || v[b - 1] == 9 || v[b - 1] == 10 || v[b - 1] == 13 || v[b
        - 1] == 11 || v[b - 1] == 12)
        invariant
            a < b <= blen,
            blen == v@.len(),
            forall|j: int| b <= j < blen ==> is_ws(#[trigger] v@[j]),
        decreases b,
    {
        b = b - 1;
    }
    proof {
        let t = v@.skip(a as int);
        if b == a + 1 && is_ws(v@[a as int]) {
            assert(false);
        }
        assert(!is_ws(t[b - a - 1]));
        assert(forall|j: int| b - a <= j < t.len() ==> is_ws(#[trigger] t[j]));
        lemma_trim_back_at(t, b as int - a as int);
        assert(t.take(b as int - a as int) =~= v@.subrange(a as int, b as int));
    }
    copy_range(v, a, b)
}

/// Splits on a delimiter byte, fragments between occurrences.
fn split_on(v: &[u8], x: u8) -> (r: Vec<Vec<u8>>)
    ensures
        byte_views(r@) == split_byte(v@, x),
{
    let blen: usize = v.len();
    let mut out: Vec<Vec<u8>> = Vec::new();
    let mut start: usize = 0;
    proof {
        assert(v@.skip(0) =~= v@);
        assert(byte_views(out@) =~= Seq::<Seq<u8>>::empty());
        assert(split_byte(v@, x) =~= byte_views(out@) + split_byte(v@.skip(0), x));
    }
    loop
        invariant
            start <= blen,
            blen == v@.len(),
            split_byte(v@, x) == byte_views(out@) + split_byte(v@.skip(start as int), x),
        decreases blen - start,
    {
        let ghost rest = v@.skip(start as int);
        match find_byte(v, start, blen, x) {
            Some(k) => {
                proof {
                    assert(v@.subrange(start as int, blen as int) =~= rest);
                    assert(split_byte(rest, x) == seq![rest.take(k - start)] + split_byte(
                        rest.subrange(k - start + 1, rest.len() as int),
                        x,
                    ));
                    assert(rest.take(k - start) =~= v@.subrange(start as int, k as int));
                    assert(rest.subrange(k - start + 1, rest.len() as int) =~= v@.skip(
                        k as int + 1,
                    ));
                }
                let frag = copy_range(v, start, k);
                out.push(frag);
                proof {
                    assert(byte_views(out@) =~= byte_views(out@.drop_last()) + seq![
                        out@.last()@,
                    ]);
                    assert(split_byte(v@, x) =~= byte_views(out@) + split_byte(
                        v@.skip(k as int + 1),
                        x,
                    ));
                }
                start = k + 1;
            },
            None => {
                proof {
                    assert(v@.subrange(start as int, blen as int) =~= rest);
                    assert(split_byte(rest, x) == seq![rest]);
                    assert(rest =~= v@.subrange(start as int, blen as int));
                }
                let frag = copy_range(v, start, blen);
                out.push(frag);
                proof {
                    assert(byte_views(out@) =~= byte_views(out@.drop_last()) + seq![
                        out@.last()@,
                    ]);
                    assert(byte_views(out@) =~= split_byte(v@, x));
                }
                return out;
            },
        }
    }
}

/// Reads the NUL-terminated value at `off` in a table.
fn read_nul_str(t: &Vec<u8>, off: i32) -> (r: Result<Vec<u8>, ParseError>)
    ensures
        match prefix_to_nul(t@, off as int) {
            Some(bytes) => r matches Ok(v) && v@ == bytes,
            None => r is Err,
        },
{
    if off < 0 || (off as usize) > t.len() {
        return Err(ParseError);
    }
    let start = off as usize;
    match find_byte(t.as_slice(), start, t.len(), 0) {
        Some(k) => {
            proof {
                assert(t@.subrange(start as int, t@.len() as int) =~= t@.skip(start as int));
            }
            Ok(copy_range(t.as_slice(), start, k))
        },
        None => {
            proof {
                assert(t@.subrange(start as int, t@.len() as int) =~= t@.skip(start as int));
            }
            Err(ParseError)
        },
    }
}

/// Counts the slots that are not absent.
fn count_present(s: &Vec<i32>) -> (r: usize)
    ensures
        r as int == count_nonneg(s@, 0),
{
    let mut n: usize = 0;
    let mut i: usize = 0;
    while i < s.len()
        invariant
            i <= s@.len(),
            n <= i,
            count_nonneg(s@, 0) == n + count_nonneg(s@, i as int),
        decreases s@.len() - i,
    {
        if s[i] >= 0 {
            n = n + 1;
        }
        i = i + 1;
    }
    n
}

/// Folds the standard boolean slots into the builder.
fn add_booleans(builder: &mut crate::database::Builder, booleans: &Vec<bool>)
    ensures
        final(builder)@ == (BuilderV {
            entries: add_std_bools(old(builder)@.entries, booleans@, 0),
            ..old(builder)@
        }),
{
    let ghost m0 = builder@.entries;
    let mut i: usize = 0;
    while i < booleans.len()
        invariant
            i <= booleans@.len(),
            m0 == old(builder)@.entries,
            add_std_bools(m0, booleans@, 0) == add_std_bools(builder@.entries, booleans@, i as int),
            builder@ == (BuilderV { entries: builder@.entries, ..old(builder)@ }),
        decreases booleans@.len() - i,
    {
        if booleans[i] {
            match names::boolean_name(i) {
                Some(l) => {
                    builder.raw_long(l, Value::True);
                },
                None => {},
            }
        }
        i = i + 1;
    }
}

/// Folds the standard number slots into the builder.
fn add_numbers(builder: &mut crate::database::Builder, numbers: &Vec<i32>)
    ensures
        final(builder)@ == (BuilderV {
            entries: add_std_nums(old(builder)@.entries, numbers@, 0),
            ..old(builder)@
        }),
{
    let ghost m0 = builder@.entries;
    let mut i: usize = 0;
    while i < numbers.len()
        invariant
            i <= numbers@.len(),
            m0 == old(builder)@.entries,
            add_std_nums(m0, numbers@, 0) == add_std_nums(builder@.entries, numbers@, i as int),
            builder@ == (BuilderV { entries: builder@.entries, ..old(builder)@ }),
        decreases numbers@.len() - i,
    {
        if numbers[i] >= 0 {
            match names::number_name(i) {
                Some(l) => {
                    builder.raw_long(l, Value::Number(numbers[i]));
                },
                None => {},
            }
        }
        i = i + 1;
    }
}

/// Folds the standard string slots into the builder, reading each value
/// from the string table.
fn add_strings(builder: &mut crate::database::Builder, strings: &Vec<i32>, table: &Vec<u8>) -> (r:
    Result<(), ParseError>)
    ensures
        match add_std_strs(old(builder)@.entries, strings@, table@, 0) {
            Some(m) => r is Ok && final(builder)@ == (BuilderV { entries: m, ..old(builder)@ }),
            None => r is Err,
        },
{
    let ghost m0 = builder@.entries;
    let mut i: usize = 0;
    while i < strings.len()
        invariant
            i <= strings@.len(),
            m0 == old(builder)@.entries,
            add_std_strs(m0, strings@, table@, 0) == add_std_strs(
                builder@.entries,
                strings@,
                table@,
                i as int,
            ),
            builder@ == (BuilderV { entries: builder@.entries, ..old(builder)@ }),
        decreases strings@.len() - i,
    {
        if strings[i] >= 0 {
            match names::string_name(i) {
                Some(l) => {
                    match read_nul_str(table, strings[i]) {
                        Ok(bytes) => {
                            builder.raw_long(l, Value::String(bytes));
                        },
                        Err(e) => {
                            proof {
                                assert(add_std_strs(
                                    builder@.entries,
                                    strings@,
                                    table@,
                                    i as int,
                                ) is None);
                            }
                            return Err(e);
                        },
                    }
                },
                None => {},
            }
        }
        i = i + 1;
    }
    proof {
        assert(add_std_strs(builder@.entries, strings@, table@, strings@.len() as int) == Some(
            builder@.entries,
        ));
    }
    Ok(())
}

/// Folds the extended boolean slots into the builder, naming each from
/// the fragments after the first `k`.
fn add_ext_booleans(
    builder: &mut crate::database::Builder,
    xb: &Vec<bool>,
    frags: &Vec<Vec<u8>>,
    k: usize,
) -> (r: Result<(), ParseError>)
    ensures
        match add_ext_bools(old(builder)@.entries, xb@, names_after(byte_views(frags@), k as int), 0) {
            Some(m) => r is Ok && final(builder)@ == (BuilderV { entries: m, ..old(builder)@ }),
            None => r is Err,
        },
{
    let ghost en = names_after(byte_views(frags@), k as int);
    let flen: usize = frags.len();
    let en_len: usize = if k <= flen {
        flen - k
    } else {
        0
    };
    let ghost m0 = builder@.entries;
    let mut i: usize = 0;
    while i < xb.len()
        invariant
            i <= xb@.len(),
            flen == frags@.len(),
            en == names_after(byte_views(frags@), k as int),
            en_len == en.len(),
            (k <= frags@.len() && en_len == frags@.len() - k) || (k > frags@.len() && en_len
                == 0),
            m0 == old(builder)@.entries,
            add_ext_bools(m0, xb@, en, 0) == add_ext_bools(builder@.entries, xb@, en, i as int),
            builder@ == (BuilderV { entries: builder@.entries, ..old(builder)@ }),
        decreases xb@.len() - i,
    {
        if xb[i] {
            if i >= en_len {
                proof {
                    assert(add_ext_bools(builder@.entries, xb@, en, i as int) is None);
                }
                return Err(ParseError);
            }
            proof {
                assert(en[i as int] == byte_views(frags@)[k + i]);
                assert(en[i as int] == frags@[k + i]@);
            }
            let nm = lossy_string(&frags[k + i]);
            builder.raw_long(nm.as_str(), Value::True);
        }
        i = i + 1;
    }
    proof {
        assert(add_ext_bools(builder@.entries, xb@, en, xb@.len() as int) == Some(
            builder@.entries,
        ));
    }
    Ok(())
}

/// Folds the extended number slots into the builder, naming each from the
/// fragments after the booleans' names.
fn add_ext_numbers(
    builder: &mut crate::database::Builder,
    base: usize,
    xn: &Vec<i32>,
    frags: &Vec<Vec<u8>>,
    k: usize,
) -> (r: Result<(), ParseError>)
    ensures
        match add_ext_nums(
            old(builder)@.entries,
            base as int,
            xn@,
            names_after(byte_views(frags@), k as int),
            0,
        ) {
            Some(m) => r is Ok && final(builder)@ == (BuilderV { entries: m, ..old(builder)@ }),
            None => r is Err,
        },
{
    let ghost en = names_after(byte_views(frags@), k as int);
    let flen: usize = frags.len();
    let en_len: usize = if k <= flen {
        flen - k
    } else {
        0
    };
    let ghost m0 = builder@.entries;
    let mut i: usize = 0;
    while i < xn.len()
        invariant
            i <= xn@.len(),
            flen == frags@.len(),
            en == names_after(byte_views(frags@), k as int),
            en_len == en.len(),
            (k <= frags@.len() && en_len == frags@.len() - k) || (k > frags@.len() && en_len
                == 0),
            m0 == old(builder)@.entries,
            add_ext_nums(m0, base as int, xn@, en, 0) == add_ext_nums(
                builder@.entries,
                base as int,
                xn@,
                en,
                i as int,
            ),
            builder@ == (BuilderV { entries: builder@.entries, ..old(builder)@ }),
        decreases xn@.len() - i,
    {
        if xn[i] >= 0 {
            if base >= en_len || i >= en_len - base {
                proof {
                    assert(add_ext_nums(builder@.entries, base as int, xn@, en, i as int) is None);
                }
                return Err(ParseError);
            }
            proof {
                assert(en[base + i] == byte_views(frags@)[k + base + i]);
                assert(en[base + i] == frags@[k + base + i]@);
            }
            let nm = lossy_string(&frags[k + base + i]);
            builder.raw_long(nm.as_str(), Value::Number(xn[i]));
        }
        i = i + 1;
    }
    proof {
        assert(add_ext_nums(builder@.entries, base as int, xn@, en, xn@.len() as int) == Some(
            builder@.entries,
        ));
    }
    Ok(())
}

/// Folds the extended string slots into the builder, naming each from the
/// fragments after the booleans' and numbers' names, with values read
/// from the extended table.
fn add_ext_strings(
    builder: &mut crate::database::Builder,
    b1: usize,
    b2: usize,
    xs: &Vec<i32>,
    xt: &Vec<u8>,
    frags: &Vec<Vec<u8>>,
    k: usize,
) -> (r: Result<(), ParseError>)
    ensures
        match add_ext_strs(
            old(builder)@.entries,
            b1 + b2,
            xs@,
            xt@,
            names_after(byte_views(frags@), k as int),
            0,
        ) {
            Some(m) => r is Ok && final(builder)@ == (BuilderV { entries: m, ..old(builder)@ }),
            None => r is Err,
        },
{
    let ghost en = names_after(byte_views(frags@), k as int);
    let ghost base = b1 + b2;
    let flen: usize = frags.len();
    let en_len: usize = if k <= flen {
        flen - k
    } else {
        0
    };
    let ghost m0 = builder@.entries;
    let mut i: usize = 0;
    while i < xs.len()
        invariant
            i <= xs@.len(),
            flen == frags@.len(),
            base == b1 + b2,
            en == names_after(byte_views(frags@), k as int),
            en_len == en.len(),
            (k <= frags@.len() && en_len == frags@.len() - k) || (k > frags@.len() && en_len
                == 0),
            m0 == old(builder)@.entries,
            add_ext_strs(m0, base, xs@, xt@, en, 0) == add_ext_strs(
                builder@.entries,
                base,
                xs@,
                xt@,
                en,
                i as int,
            ),
            builder@ == (BuilderV { entries: builder@.entries, ..old(builder)@ }),
        decreases xs@.len() - i,
    {
        if xs[i] >= 0 {
            if b1 >= en_len || b2 >= en_len - b1 || i >= en_len - b1 - b2 {
                proof {
                    assert(add_ext_strs(builder@.entries, base, xs@, xt@, en, i as int)
                        is None);
                }
                return Err(ParseError);
            }
            proof {
                assert(en[base + i] == byte_views(frags@)[k + base + i]);
                assert(en[base + i] == frags@[k + (b1 + b2 + i)]@);
            }
            let bytes = match read_nul_str(xt, xs[i]) {
                Ok(v) => v,
                Err(e) => {
                    proof {
                        assert(add_ext_strs(builder@.entries, base, xs@, xt@, en, i as int)
                            is None);
                    }
                    return Err(e);
                },
            };
            let nm = lossy_string(&frags[k + (b1 + b2 + i)]);
            builder.raw_long(nm.as_str(), Value::String(bytes));
        }
        i = i + 1;
    }
    proof {
        assert(add_ext_strs(builder@.entries, base, xs@, xt@, en, xs@.len() as int) == Some(
            builder@.entries,
        ));
    }
    Ok(())
}

impl Database {
    /// Resolves the raw entry into a capability database: names and
    /// description from the names block, and every slot under its
    /// canonical or extended name, the first write of each name winning.
    pub fn into_database(self) -> (r: Result<crate::database::Database, ParseError>)
        ensures
            match spec_build(self@) {
                Some(dbv) => r matches Ok(db) && db@ == dbv,
                None => r is Err,
            },
    {
        let ghost rawv = self@;
        let Database { names, standard, extended } = self;
        let Standard { booleans, numbers, strings, table } = standard;
        let fields = split_on(names.as_slice(), 124);
        let ghost fieldsv = split_byte(rawv.names, 124);
        proof {
            assert(fieldsv.len() >= 1);
            assert(fields@.len() == fieldsv.len());
            assert(fields@[0]@ == byte_views(fields@)[0]);
        }
        let name_b = trim_bytes(fields[0].as_slice());
        if name_b.len() == 0 {
            return Err(ParseError);
        }
        let mut builder = crate::database::Database::new();
        let name_s = lossy_string(&name_b);
        builder.name(name_s.as_str());
        if fields.len() >= 2 {
            proof {
                assert(fields@[fields@.len() - 1]@ == byte_views(fields@)[fieldsv.len() - 1]);
            }
            let desc_b = trim_bytes(fields[fields.len() - 1].as_slice());
            let desc_s = lossy_string(&desc_b);
            builder.description(desc_s.as_str());
            let mut als: Vec<String> = Vec::new();
            let mut i: usize = 1;
            while i < fields.len() - 1
                invariant
                    1 <= i <= fields@.len() - 1,
                    fields@.len() == fieldsv.len(),
                    fieldsv == split_byte(rawv.names, 124),
                    byte_views(fields@) == fieldsv,
                    crate::database::string_views(als@) =~= alias_texts(
                        fieldsv.subrange(1, i as int),
                    ),
                decreases fields@.len() - i,
            {
                proof {
                    assert(fields@[i as int]@ == byte_views(fields@)[i as int]);
                }
                let al_b = trim_bytes(fields[i].as_slice());
                let al_s = lossy_string(&al_b);
                als.push(al_s);
                proof {
                    assert(crate::database::string_views(als@) =~= alias_texts(
                        fieldsv.subrange(1, i as int + 1),
                    )) by {
                        assert(crate::database::string_views(als@) =~= crate::database::string_views(
                            als@.drop_last(),
                        ).push(als@.last()@));
                        assert(fieldsv.subrange(1, i as int + 1) =~= fieldsv.subrange(
                            1,
                            i as int,
                        ).push(fieldsv[i as int]));
                        assert(alias_texts(fieldsv.subrange(1, i as int + 1)) =~= alias_texts(
                            fieldsv.subrange(1, i as int),
                        ).push(utf8_lossy(trim_ascii(fieldsv[i as int]))));
                    }
                }
                i = i + 1;
            }
            builder.aliases(als);
        }
        add_booleans(&mut builder, &booleans);
        add_numbers(&mut builder, &numbers);
        match add_strings(&mut builder, &strings, &table) {
            Ok(()) => {},
            Err(e) => {
                return Err(e);
            },
        }
        match extended {
            None => {},
            Some(ext) => {
                let Extended { booleans: xb, numbers: xn, strings: xs, names: _xo, table: xt } =
                    ext;
                let frags = split_on(xt.as_slice(), 0);
                let k = count_present(&xs);
                match add_ext_booleans(&mut builder, &xb, &frags, k) {
                    Ok(()) => {},
                    Err(e) => {
                        return Err(e);
                    },
                }
                match add_ext_numbers(&mut builder, xb.len(), &xn, &frags, k) {
                    Ok(()) => {},
                    Err(e) => {
                        return Err(e);
                    },
                }
                match add_ext_strings(&mut builder, xb.len(), xn.len(), &xs, &xt, &frags, k) {
                    Ok(()) => {},
                    Err(e) => {
                        return Err(e);
                    },
                }
            },
        }
        match builder.build() {
            Ok(db) => {
                proof {
                    assert(db@ =~~= spec_build(rawv)->Some_0);
                }
                Ok(db)
            },
            Err(_) => {
                proof {
                    assert(false);
                }
                Err(ParseError)
            },
        }
    }
}

} // verus!
