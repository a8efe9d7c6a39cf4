//! Byte-level helpers shared by every protocol of the crate: big-endian
//! integers and the slice-splitting primitives of `parser_helper`.
use parser_helper::ParseHelper;
use vstd::prelude::*;

verus! {

/// The unsigned big-endian number that the bytes of `s` spell.
pub open spec fn be_value(s: Seq<u8>) -> nat
    decreases s.len(),
{
    if s.len() == 0 {
        0
    } else {
        be_value(s.drop_last()) * 256 + s.last() as nat
    }
}

/// `256` raised to the power `n`.
pub open spec fn pow256(n: nat) -> nat
    decreases n,
{
    if n == 0 {
        1
    } else {
        256 * pow256((n - 1) as nat)
    }
}

/// A number spelled by `n` bytes is below `256^n`.
pub proof fn lemma_be_value_bound(s: Seq<u8>)
    ensures
        be_value(s) < pow256(s.len()),
    decreases s.len(),
{
    if s.len() > 0 {
        lemma_be_value_bound(s.drop_last());
        let a = be_value(s.drop_last());
        let p = pow256(s.drop_last().len());
        let b = s.last() as nat;
        assert(a * 256 + b < 256 * p) by (nonlinear_arith)
            requires
                a < p,
                b < 256,
        ;
    }
}

/// Reading one more byte extends the number by one digit.
pub proof fn lemma_be_value_push(s: Seq<u8>, i: int)
    requires
        0 <= i < s.len(),
    ensures
        be_value(s.take(i + 1)) == be_value(s.take(i)) * 256 + s[i] as nat,
{
    assert(s.take(i + 1).drop_last() =~= s.take(i));
}

/// Folds up to four bytes into the big-endian `u32` that they spell.
pub fn be_u32(s: &[u8]) -> (r: u32)
    requires
        s@.len() <= 4,
    ensures
        r as nat == be_value(s@),
{
    let mut acc: u32 = 0;
    let mut i: usize = 0;
    while i < s.len()
        invariant
            i <= s@.len(),
            s@.len() <= 4,
            acc as nat == be_value(s@.take(i as int)),
        decreases s@.len() - i,
    {
        proof {
            lemma_be_value_push(s@, i as int);
            lemma_be_value_bound(s@.take(i as int + 1));
            assert(pow256(s@.take(i as int + 1).len()) <= pow256(4)) by {
                reveal_with_fuel(pow256, 5);
            }
            assert(pow256(4) == 0x1_0000_0000) by {
                reveal_with_fuel(pow256, 5);
            }
        }
        acc = acc * 256 + s[i] as u32;
        i = i + 1;
    }
    assert(s@.take(s@.len() as int) =~= s@);
    acc
}

/// Folds up to two bytes into the big-endian `u16` that they spell.
pub fn be_u16(s: &[u8]) -> (r: u16)
    requires
        s@.len() <= 2,
    ensures
        r as nat == be_value(s@),
{
    let mut acc: u16 = 0;
    let mut i: usize = 0;
    while i < s.len()
        invariant
            i <= s@.len(),
            s@.len() <= 2,
            acc as nat == be_value(s@.take(i as int)),
        decreases s@.len() - i,
    {
        proof {
            lemma_be_value_push(s@, i as int);
            lemma_be_value_bound(s@.take(i as int + 1));
            assert(pow256(s@.take(i as int + 1).len()) <= pow256(2)) by {
                reveal_with_fuel(pow256, 3);
            }
            assert(pow256(2) == 0x1_0000) by {
                reveal_with_fuel(pow256, 3);
            }
        }
        acc = acc * 256 + s[i] as u16;
        i = i + 1;
    }
    assert(s@.take(s@.len() as int) =~= s@);
    acc
}

/// Appends `bytes` to `out`.
pub fn push_all(out: &mut Vec<u8>, bytes: &[u8])
    ensures
        final(out)@ == old(out)@ + bytes@,
{
    let mut i: usize = 0;
    while i < bytes.len()
        invariant
            i <= bytes@.len(),
            out@ == old(out)@ + bytes@.take(i as int),
        decreases bytes@.len() - i,
    {
        out.push(bytes[i]);
        i = i + 1;
        assert(bytes@.take(i as int) =~= bytes@.take(i - 1).push(bytes@[i - 1]));
    }
    assert(bytes@.take(i as int) =~= bytes@);
}

/// `parser_helper::ParseHelper::take_exact_err`: splits off the first
/// `count` bytes, or hands back `err` when fewer are there.
#[verifier::external_body]
pub(crate) fn take_exact<'a>(input: &'a [u8], count: usize, err: &'static str) -> (r: Result<
    (&'a [u8], &'a [u8]),
    &'static str,
>)
    ensures
        match r {
            Ok((head, tail)) => {
                &&& count <= input@.len()
                &&& head@ == input@.take(count as int)
                &&& tail@ == input@.skip(count as int)
            },
            Err(e) => count > input@.len() && e == err,
        },
{
    input.take_exact_err(count, err)
}

/// `input` begins with `pattern`.
pub open spec fn starts_with(input: Seq<u8>, pattern: Seq<u8>) -> bool {
    pattern.len() <= input.len() && input.take(pattern.len() as int) == pattern
}

/// `parser_helper::ParseHelper::take_expect_err`: splits off `pattern`
/// when the input begins with it, or hands back `err`.
#[verifier::external_body]
pub(crate) fn take_expect<'a>(input: &'a [u8], pattern: &[u8], err: &'static str) -> (r: Result<
    (&'a [u8], &'a [u8]),
    &'static str,
>)
    ensures
        match r {
            Ok((head, tail)) => {
                &&& starts_with(input@, pattern@)
                &&& head@ == pattern@
                &&& tail@ == input@.skip(pattern@.len() as int)
            },
            Err(e) => !starts_with(input@, pattern@) && e == err,
        },
{
    input.take_expect_err(pattern, err)
}

/// `parser_helper::ParseHelper::maybe_expect`: splits off `pattern` when
/// the input begins with it, or leaves the input whole.
#[verifier::external_body]
pub(crate) fn maybe_expect<'a>(input: &'a [u8], pattern: &[u8]) -> (r: (Option<&'a [u8]>, &'a [u8]))
    ensures
        match r {
            (Some(head), tail) => starts_with(input@, pattern@) && head@ == pattern@ && tail@
                == input@.skip(pattern@.len() as int),
            (None, tail) => !starts_with(input@, pattern@) && tail@ == input@,
        },
{
    input.maybe_expect(pattern)
}

/// `pattern` occurs in `input` at position `i`.
pub open spec fn occurs_at(input: Seq<u8>, pattern: Seq<u8>, i: int) -> bool {
    0 <= i && i + pattern.len() <= input.len() && input.subrange(i, i + pattern.len()) == pattern
}

/// `i` is the first position at which `pattern` occurs in `input`.
pub open spec fn first_occurrence(input: Seq<u8>, pattern: Seq<u8>, i: int) -> bool {
    &&& occurs_at(input, pattern, i)
    &&& forall|j: int| 0 <= j < i ==> !occurs_at(input, pattern, j)
}

/// `pattern` occurs somewhere in `input`.
pub open spec fn occurs(input: Seq<u8>, pattern: Seq<u8>) -> bool {
    exists|i: int| occurs_at(input, pattern, i)
}

/// `parser_helper::ParseHelper::take_until_err`: splits the input where
/// `pattern` first occurs (the pattern stays at the head of the second
/// part), or hands back `err` when it does not occur.
#[verifier::external_body]
pub(crate) fn take_until<'a>(input: &'a [u8], pattern: &[u8], err: &'static str) -> (r: Result<
    (&'a [u8], &'a [u8]),
    &'static str,
>)
    ensures
        match r {
            Ok((head, tail)) => {
                &&& first_occurrence(input@, pattern@, head@.len() as int)
                &&& head@ == input@.take(head@.len() as int)
                &&& tail@ == input@.skip(head@.len() as int)
            },
            Err(e) => !occurs(input@, pattern@) && e == err,
        },
{
    input.take_until_err(pattern, err)
}

/// The first position at or after `start` where `pattern` occurs.
pub open spec fn find_from(input: Seq<u8>, pattern: Seq<u8>, start: int) -> Option<int>
    decreases input.len() + 1 - start,
{
    if start < 0 || start + pattern.len() > input.len() {
        None
    } else if occurs_at(input, pattern, start) {
        Some(start)
    } else {
        find_from(input, pattern, start + 1)
    }
}

/// The first position where `pattern` occurs.
pub open spec fn find(input: Seq<u8>, pattern: Seq<u8>) -> Option<int> {
    find_from(input, pattern, 0)
}

proof fn lemma_find_from(input: Seq<u8>, pattern: Seq<u8>, start: int)
    requires
        0 <= start,
        forall|j: int| 0 <= j < start ==> !occurs_at(input, pattern, j),
    ensures
        match find_from(input, pattern, start) {
            Some(i) => first_occurrence(input, pattern, i),
            None => !occurs(input, pattern),
        },
    decreases input.len() + 1 - start,
{
    if start + pattern.len() > input.len() {
        assert forall|j: int| !occurs_at(input, pattern, j) by {
            if j >= start {
                assert(j + pattern.len() > input.len());
            }
        }
    } else if !occurs_at(input, pattern, start) {
        lemma_find_from(input, pattern, start + 1);
    }
}

/// [`find`] gives the first occurrence, and nothing when there is none.
pub proof fn lemma_find(input: Seq<u8>, pattern: Seq<u8>)
    ensures
        match find(input, pattern) {
            Some(i) => first_occurrence(input, pattern, i),
            None => !occurs(input, pattern),
        },
        forall|i: int| #[trigger] first_occurrence(input, pattern, i) ==> find(input, pattern) == Some(i),
{
    lemma_find_from(input, pattern, 0);
    assert forall|i: int| #[trigger] first_occurrence(input, pattern, i) implies find(input, pattern)
        == Some(i) by {
        if let Some(k) = find(input, pattern) {
            if k < i {
                assert(!occurs_at(input, pattern, k));
            } else if k > i {
                assert(!occurs_at(input, pattern, i));
            }
        }
    }
}

} // verus!
