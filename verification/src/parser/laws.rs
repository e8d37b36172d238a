//! Properties of decoding that hold for every buffer.

use vstd::prelude::*;

use crate::capability::ValueV;
use crate::database::insert_first;
use crate::names;
use crate::parser::compiled::{
    add_ext_bools, add_ext_nums, add_ext_strs, add_std_bools, add_std_nums, add_std_strs,
    ext_names, prefix_to_nul, spec_decode, spec_parse, utf8_lossy, ExtV, RawV,
};

verus! {

/// The key is a canonical long name from one of the three static tables,
/// or a name carried in the entry's own extended names table.
pub open spec fn key_canonical(raw: RawV, k: Seq<char>) -> bool {
    ||| (exists|i: int| (#[trigger] names::boolean_long(i)) matches Some(l) && l@ == k)
    ||| (exists|i: int| (#[trigger] names::number_long(i)) matches Some(l) && l@ == k)
    ||| (exists|i: int| (#[trigger] names::string_long(i)) matches Some(l) && l@ == k)
    ||| (raw.extended matches Some(x) && exists|j: int|
        0 <= j < ext_names(x).len() && k == utf8_lossy(#[trigger] ext_names(x)[j]))
}

/// A string value's bytes are a prefix of one of the raw tables at some
/// declared offset, cut at the first NUL and not including it.
pub open spec fn value_from_tables(raw: RawV, v: ValueV) -> bool {
    v is Str ==> {
        ||| (exists|off: int| (#[trigger] prefix_to_nul(raw.table, off)) == Some(v->Str_0))
        ||| (raw.extended matches Some(x) && exists|off: int|
            (#[trigger] prefix_to_nul(x.table, off)) == Some(v->Str_0))
    }
}

/// What decoding guarantees of each binding: a canonical or extended key,
/// no number from an absent or canceled slot, and string bytes drawn from
/// a table up to their NUL.
pub open spec fn entry_ok(raw: RawV, k: Seq<char>, v: ValueV) -> bool {
    &&& key_canonical(raw, k)
    &&& (v is Num ==> v->Num_0 >= 0)
    &&& value_from_tables(raw, v)
}

/// Every binding of the map satisfies [`entry_ok`].
pub open spec fn entries_ok(raw: RawV, m: Map<Seq<char>, ValueV>) -> bool {
    forall|k: Seq<char>| #[trigger] m.contains_key(k) ==> entry_ok(raw, k, m[k])
}

/// A first-write-wins insert of a sound binding keeps the map sound.
proof fn lemma_insert_first_ok(raw: RawV, m: Map<Seq<char>, ValueV>, k: Seq<char>, v: ValueV)
    requires
        entries_ok(raw, m),
        entry_ok(raw, k, v),
    ensures
        entries_ok(raw, insert_first(m, k, v)),
{
}

/// The standard boolean fold keeps the map sound.
proof fn lemma_add_std_bools_ok(raw: RawV, m: Map<Seq<char>, ValueV>, i: int)
    requires
        entries_ok(raw, m),
    ensures
        entries_ok(raw, add_std_bools(m, raw.booleans, i)),
    decreases raw.booleans.len() - i,
{
    if 0 <= i < raw.booleans.len() {
        if raw.booleans[i] && names::boolean_long(i) is Some {
            let l = names::boolean_long(i)->Some_0;
            assert(key_canonical(raw, l@));
            lemma_insert_first_ok(raw, m, l@, ValueV::True);
            lemma_add_std_bools_ok(raw, insert_first(m, l@, ValueV::True), i + 1);
        } else {
            lemma_add_std_bools_ok(raw, m, i + 1);
        }
    }
}

/// The standard number fold keeps the map sound: only slots with a value
/// of at least zero are folded in.
proof fn lemma_add_std_nums_ok(raw: RawV, m: Map<Seq<char>, ValueV>, i: int)
    requires
        entries_ok(raw, m),
    ensures
        entries_ok(raw, add_std_nums(m, raw.numbers, i)),
    decreases raw.numbers.len() - i,
{
    if 0 <= i < raw.numbers.len() {
        if raw.numbers[i] >= 0 && names::number_long(i) is Some {
            let l = names::number_long(i)->Some_0;
            assert(key_canonical(raw, l@));
            lemma_insert_first_ok(raw, m, l@, ValueV::Num(raw.numbers[i]));
            lemma_add_std_nums_ok(raw, insert_first(m, l@, ValueV::Num(raw.numbers[i])), i + 1);
        } else {
            lemma_add_std_nums_ok(raw, m, i + 1);
        }
    }
}

/// The standard string fold keeps the map sound: each folded value is the
/// table's bytes at its offset up to the first NUL.
proof fn lemma_add_std_strs_ok(raw: RawV, m: Map<Seq<char>, ValueV>, i: int)
    requires
        entries_ok(raw, m),
    ensures
        add_std_strs(m, raw.strings, raw.table, i) matches Some(m2) ==> entries_ok(raw, m2),
    decreases raw.strings.len() - i,
{
    if 0 <= i < raw.strings.len() {
        if raw.strings[i] >= 0 && names::string_long(i) is Some {
            let l = names::string_long(i)->Some_0;
            match prefix_to_nul(raw.table, raw.strings[i] as int) {
                Some(bytes) => {
                    assert(key_canonical(raw, l@));
                    assert(value_from_tables(raw, ValueV::Str(bytes)));
                    lemma_insert_first_ok(raw, m, l@, ValueV::Str(bytes));
                    lemma_add_std_strs_ok(raw, insert_first(m, l@, ValueV::Str(bytes)), i + 1);
                },
                None => {},
            }
        } else {
            lemma_add_std_strs_ok(raw, m, i + 1);
        }
    }
}

/// The extended boolean fold keeps the map sound.
proof fn lemma_add_ext_bools_ok(raw: RawV, x: ExtV, m: Map<Seq<char>, ValueV>, i: int)
    requires
        entries_ok(raw, m),
        raw.extended == Some(x),
    ensures
        add_ext_bools(m, x.booleans, ext_names(x), i) matches Some(m2) ==> entries_ok(raw, m2),
    decreases x.booleans.len() - i,
{
    if 0 <= i < x.booleans.len() {
        let en = ext_names(x);
        if x.booleans[i] {
            if i < en.len() {
                let k = utf8_lossy(en[i]);
                let x2 = raw.extended->Some_0;
                assert(x2 == x);
                assert(0 <= i < ext_names(x2).len() && k == utf8_lossy(ext_names(x2)[i]));
                assert(key_canonical(raw, k));
                lemma_insert_first_ok(raw, m, k, ValueV::True);
                lemma_add_ext_bools_ok(raw, x, insert_first(m, k, ValueV::True), i + 1);
            }
        } else {
            lemma_add_ext_bools_ok(raw, x, m, i + 1);
        }
    }
}

/// The extended number fold keeps the map sound.
proof fn lemma_add_ext_nums_ok(raw: RawV, x: ExtV, m: Map<Seq<char>, ValueV>, i: int)
    requires
        entries_ok(raw, m),
        raw.extended == Some(x),
    ensures
        add_ext_nums(m, x.booleans.len() as int, x.numbers, ext_names(x), i) matches Some(m2)
            ==> entries_ok(raw, m2),
    decreases x.numbers.len() - i,
{
    if 0 <= i < x.numbers.len() {
        let en = ext_names(x);
        let base = x.booleans.len() as int;
        if x.numbers[i] >= 0 {
            if base + i < en.len() {
                let k = utf8_lossy(en[base + i]);
                let x2 = raw.extended->Some_0;
                assert(x2 == x);
                assert(0 <= base + i < ext_names(x2).len() && k == utf8_lossy(
                    ext_names(x2)[base + i],
                ));
                assert(key_canonical(raw, k));
                lemma_insert_first_ok(raw, m, k, ValueV::Num(x.numbers[i]));
                lemma_add_ext_nums_ok(raw, x, insert_first(m, k, ValueV::Num(x.numbers[i])), i + 1);
            }
        } else {
            lemma_add_ext_nums_ok(raw, x, m, i + 1);
        }
    }
}

/// The extended string fold keeps the map sound.
proof fn lemma_add_ext_strs_ok(raw: RawV, x: ExtV, m: Map<Seq<char>, ValueV>, i: int)
    requires
        entries_ok(raw, m),
        raw.extended == Some(x),
    ensures
        add_ext_strs(
            m,
            x.booleans.len() + x.numbers.len() as int,
            x.strings,
            x.table,
            ext_names(x),
            i,
        ) matches Some(m2) ==> entries_ok(raw, m2),
    decreases x.strings.len() - i,
{
    if 0 <= i < x.strings.len() {
        let en = ext_names(x);
        let base = x.booleans.len() + x.numbers.len() as int;
        if x.strings[i] >= 0 {
            if base + i < en.len() {
                match prefix_to_nul(x.table, x.strings[i] as int) {
                    Some(bytes) => {
                        let k = utf8_lossy(en[base + i]);
                        let x2 = raw.extended->Some_0;
                        assert(x2 == x);
                        assert(0 <= base + i < ext_names(x2).len() && k == utf8_lossy(
                            ext_names(x2)[base + i],
                        ));
                        assert(key_canonical(raw, k));
                        assert(value_from_tables(raw, ValueV::Str(bytes)));
                        lemma_insert_first_ok(raw, m, k, ValueV::Str(bytes));
                        lemma_add_ext_strs_ok(
                            raw,
                            x,
                            insert_first(m, k, ValueV::Str(bytes)),
                            i + 1,
                        );
                    },
                    None => {},
                }
            }
        } else {
            lemma_add_ext_strs_ok(raw, x, m, i + 1);
        }
    }
}

/// Every binding a decoded buffer carries is sound: its key canonical or
/// extended, its number non-negative, its string bytes from a table.
pub proof fn lemma_decode_entries(b: Seq<u8>)
    ensures
        spec_decode(b) matches Some(dbv) ==> entries_ok(spec_parse(b)->Some_0, dbv.entries),
{
    if spec_decode(b) is Some {
        let raw = spec_parse(b)->Some_0;
        assert(entries_ok(raw, Map::empty()));
        lemma_add_std_bools_ok(raw, Map::empty(), 0);
        let m1 = add_std_bools(Map::empty(), raw.booleans, 0);
        lemma_add_std_nums_ok(raw, m1, 0);
        let m2 = add_std_nums(m1, raw.numbers, 0);
        lemma_add_std_strs_ok(raw, m2, 0);
        let m3 = add_std_strs(m2, raw.strings, raw.table, 0)->Some_0;
        match raw.extended {
            None => {},
            Some(x) => {
                lemma_add_ext_bools_ok(raw, x, m3, 0);
                let m4 = add_ext_bools(m3, x.booleans, ext_names(x), 0)->Some_0;
                lemma_add_ext_nums_ok(raw, x, m4, 0);
                let m5 = add_ext_nums(m4, x.booleans.len() as int, x.numbers, ext_names(x), 0)
                    ->Some_0;
                lemma_add_ext_strs_ok(raw, x, m5, 0);
            },
        }
    }
}

/// Every key of a decoded buffer's entries is a canonical long name from
/// the three static tables, or a name present in the buffer's extended
/// names table.
pub proof fn lemma_decode_keys_canonical(b: Seq<u8>)
    ensures
        spec_decode(b) matches Some(dbv) ==> forall|k: Seq<char>|
            #[trigger] dbv.entries.contains_key(k) ==> key_canonical(spec_parse(b)->Some_0, k),
{
    lemma_decode_entries(b);
}

/// Every present string capability's bytes are a prefix of the raw table
/// bytes at some declared offset, ending at and excluding the first NUL.
pub proof fn lemma_decode_string_values(b: Seq<u8>)
    ensures
        spec_decode(b) matches Some(dbv) ==> forall|k: Seq<char>|
            #[trigger] dbv.entries.contains_key(k) ==> value_from_tables(
                spec_parse(b)->Some_0,
                dbv.entries[k],
            ),
{
    lemma_decode_entries(b);
}

/// Number values decoded from absent or canceled slots never appear: every
/// number in the entries is non-negative.
pub proof fn lemma_decode_numbers_present(b: Seq<u8>)
    ensures
        spec_decode(b) matches Some(dbv) ==> forall|k: Seq<char>|
            #[trigger] dbv.entries.contains_key(k) && dbv.entries[k] is Num
                ==> dbv.entries[k]->Num_0 >= 0,
{
    lemma_decode_entries(b);
}

/// A string value read from a table never contains the NUL it stopped at.
pub proof fn lemma_prefix_to_nul_no_nul(t: Seq<u8>, off: int)
    ensures
        prefix_to_nul(t, off) matches Some(bytes) ==> forall|j: int|
            0 <= j < bytes.len() ==> bytes[j] != 0,
{
    if 0 <= off <= t.len() {
        crate::parser::compiled::lemma_first_byte(t.skip(off), 0);
    }
}

} // verus!
