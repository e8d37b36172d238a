//! Laws of the expansion machine, proved for every input.

use vstd::prelude::*;

use crate::expand::fmt::{ascii_decimal, digits};
use crate::expand::machine::{
    expansion, go, init_machine, lemma_run_snoc, run, seed_params, step, Machine, St,
};
use crate::expand::PV;

verus! {

/// A run over bytes free of `%` copies them to the output and changes
/// nothing else.
proof fn lemma_run_plain(m: Machine, bytes: Seq<u8>)
    requires
        m.st is Input,
        forall|i: int| 0 <= i < bytes.len() ==> bytes[i] != 37,
    ensures
        run(m, bytes).err is None,
        run(m, bytes).m == (Machine { out: m.out + bytes, ..m }),
    decreases bytes.len(),
{
    if bytes.len() == 0 {
        assert(m.out + bytes =~= m.out);
        assert(run(m, bytes).m =~= (Machine { out: m.out + bytes, ..m }));
    } else {
        let ch = bytes[0];
        let rest = bytes.subrange(1, bytes.len() as int);
        let m1 = step(m, ch).m;
        assert(m1 == (Machine { out: m.out.push(ch), ..m }));
        lemma_run_plain(m1, rest);
        assert(m.out.push(ch) + rest =~= m.out + bytes);
        assert(run(m, bytes).m =~= (Machine { out: m.out + bytes, ..m }));
    }
}

/// Expansion of a byte string containing no `%` is the identity on bytes,
/// and leaves the context untouched.
pub proof fn lemma_expand_no_escape(
    bytes: Seq<u8>,
    params: Seq<PV>,
    fixed: Seq<PV>,
    dynamic: Seq<PV>,
)
    requires
        forall|i: int| 0 <= i < bytes.len() ==> bytes[i] != 37,
    ensures
        expansion(bytes, params, fixed, dynamic).err is None,
        expansion(bytes, params, fixed, dynamic).m.out == bytes,
        expansion(bytes, params, fixed, dynamic).m.fixed == fixed,
        expansion(bytes, params, fixed, dynamic).m.dynamic == dynamic,
{
    let m0 = init_machine(params, fixed, dynamic);
    lemma_run_plain(m0, bytes);
    assert(m0.out + bytes =~= bytes);
}

/// Expansion is deterministic: its outcome is a function of the bytes, the
/// parameters and the context snapshot, and of nothing else.
pub proof fn lemma_expansion_deterministic(
    b1: Seq<u8>,
    p1: Seq<PV>,
    f1: Seq<PV>,
    d1: Seq<PV>,
    b2: Seq<u8>,
    p2: Seq<PV>,
    f2: Seq<PV>,
    d2: Seq<PV>,
)
    requires
        b1 == b2,
        p1 == p2,
        f1 == f2,
        d1 == d2,
    ensures
        expansion(b1, p1, f1, d1) == expansion(b2, p2, f2, d2),
{
}

/// Expanding `%p1%d` over a single number prints its ASCII decimal
/// representation, and changes nothing else.
pub proof fn lemma_expand_decimal(n: i32, fixed: Seq<PV>, dynamic: Seq<PV>)
    ensures
        ({
            // The bytes of "%p1%d".
            let o = expansion(seq![37u8, 112u8, 49u8, 37u8, 100u8], seq![PV::Num(n)], fixed, dynamic);
            &&& o.err is None
            &&& o.m.out == ascii_decimal(n)
            &&& o.m.fixed == fixed
            &&& o.m.dynamic == dynamic
        }),
{
    let b = seq![37u8, 112u8, 49u8, 37u8, 100u8];
    let m0 = init_machine(seq![PV::Num(n)], fixed, dynamic);
    let s0 = Seq::<u8>::empty();
    let s1 = s0.push(37);
    let s2 = s1.push(112);
    let s3 = s2.push(49);
    let s4 = s3.push(37);
    let s5 = s4.push(100);
    assert(b =~= s5);
    assert(run(m0, s0) == go(m0));
    lemma_run_snoc(m0, s0, 37);
    lemma_run_snoc(m0, s1, 112);
    lemma_run_snoc(m0, s2, 49);
    lemma_run_snoc(m0, s3, 37);
    lemma_run_snoc(m0, s4, 100);
    let o = run(m0, s5);
    assert(seed_params(seq![PV::Num(n)])[0] == PV::Num(n));
    assert(o.err is None);
    assert(o.m.out =~= ascii_decimal(n));
}

/// Expanding `%p1%s` over a single string parameter yields exactly its
/// bytes, and changes nothing else.
pub proof fn lemma_expand_string(s: Seq<u8>, fixed: Seq<PV>, dynamic: Seq<PV>)
    ensures
        ({
            // The bytes of "%p1%s".
            let o = expansion(seq![37u8, 112u8, 49u8, 37u8, 115u8], seq![PV::Str(s)], fixed, dynamic);
            &&& o.err is None
            &&& o.m.out == s
            &&& o.m.fixed == fixed
            &&& o.m.dynamic == dynamic
        }),
{
    let b = seq![37u8, 112u8, 49u8, 37u8, 115u8];
    let m0 = init_machine(seq![PV::Str(s)], fixed, dynamic);
    let s0 = Seq::<u8>::empty();
    let s1 = s0.push(37);
    let s2 = s1.push(112);
    let s3 = s2.push(49);
    let s4 = s3.push(37);
    let s5 = s4.push(115);
    assert(b =~= s5);
    assert(run(m0, s0) == go(m0));
    lemma_run_snoc(m0, s0, 37);
    lemma_run_snoc(m0, s1, 112);
    lemma_run_snoc(m0, s2, 49);
    lemma_run_snoc(m0, s3, 37);
    lemma_run_snoc(m0, s4, 115);
    let o = run(m0, s5);
    assert(seed_params(seq![PV::Str(s)])[0] == PV::Str(s));
    assert(o.err is None);
    assert(o.m.out =~= s);
}

/// Expanding `%p1%p2%+%d` over two numbers prints the ASCII decimal of
/// their sum, wrapped on two's-complement overflow, and changes nothing
/// else.
pub proof fn lemma_expand_add_decimal(a: i32, b: i32, fixed: Seq<PV>, dynamic: Seq<PV>)
    ensures
        ({
            // The bytes of "%p1%p2%+%d".
            let o = expansion(
                seq![37u8, 112u8, 49u8, 37u8, 112u8, 50u8, 37u8, 43u8, 37u8, 100u8],
                seq![PV::Num(a), PV::Num(b)],
                fixed,
                dynamic,
            );
            &&& o.err is None
            &&& o.m.out == ascii_decimal(vstd::wrapping::i32_specs::wrapping_add(a, b))
            &&& o.m.fixed == fixed
            &&& o.m.dynamic == dynamic
        }),
{
    let bs = seq![37u8, 112u8, 49u8, 37u8, 112u8, 50u8, 37u8, 43u8, 37u8, 100u8];
    let m0 = init_machine(seq![PV::Num(a), PV::Num(b)], fixed, dynamic);
    let s0 = Seq::<u8>::empty();
    let s1 = s0.push(37);
    let s2 = s1.push(112);
    let s3 = s2.push(49);
    let s4 = s3.push(37);
    let s5 = s4.push(112);
    let s6 = s5.push(50);
    let s7 = s6.push(37);
    let s8 = s7.push(43);
    let s9 = s8.push(37);
    let s10 = s9.push(100);
    assert(bs =~= s10);
    assert(run(m0, s0) == go(m0));
    lemma_run_snoc(m0, s0, 37);
    lemma_run_snoc(m0, s1, 112);
    lemma_run_snoc(m0, s2, 49);
    lemma_run_snoc(m0, s3, 37);
    lemma_run_snoc(m0, s4, 112);
    lemma_run_snoc(m0, s5, 50);
    lemma_run_snoc(m0, s6, 37);
    lemma_run_snoc(m0, s7, 43);
    lemma_run_snoc(m0, s8, 37);
    lemma_run_snoc(m0, s9, 100);
    let o = run(m0, s10);
    assert(seed_params(seq![PV::Num(a), PV::Num(b)])[0] == PV::Num(a));
    assert(seed_params(seq![PV::Num(a), PV::Num(b)])[1] == PV::Num(b));
    let sum = vstd::wrapping::i32_specs::wrapping_add(a, b);
    assert(o.err is None);
    assert(o.m.out =~= ascii_decimal(sum));
}

} // verus!
