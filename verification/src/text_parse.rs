//! Text of the protocol, handled as bytes: substring search for control
//! phrases, splitting of delimiter-separated blobs, decimal rendering.

use vstd::prelude::*;

verus! {

/// The byte that separates the tokens of a blob and a key from its value.
pub const DELIMITER: u8 = 124;

/// Whether `needle` occurs in `hay` at offset `i`.
pub open spec fn spec_occurs_at(hay: Seq<u8>, needle: Seq<u8>, i: int) -> bool {
    0 <= i && i + needle.len() <= hay.len() && hay.subrange(i, i + needle.len()) == needle
}

/// Whether `needle` occurs somewhere in `hay`.
pub open spec fn spec_contains(hay: Seq<u8>, needle: Seq<u8>) -> bool {
    exists|i: int| spec_occurs_at(hay, needle, i)
}

/// The tokens of `s`: the stretches between delimiters, in order. A string
/// with n delimiters has n + 1 tokens, empty ones included.
pub open spec fn spec_split(s: Seq<u8>) -> Seq<Seq<u8>>
    decreases s.len(),
{
    if s.len() == 0 {
        seq![Seq::<u8>::empty()]
    } else {
        let before = spec_split(s.drop_last());
        if s.last() == DELIMITER {
            before.push(Seq::<u8>::empty())
        } else {
            before.drop_last().push(before.last().push(s.last()))
        }
    }
}

/// The decimal digits of `n`, most significant first, without leading zeros.
pub open spec fn spec_decimal_nat(n: nat) -> Seq<u8>
    decreases n,
{
    if n < 10 {
        seq![(48 + n) as u8]
    } else {
        spec_decimal_nat(n / 10).push((48 + n % 10) as u8)
    }
}

/// The decimal rendering of `i`, with a minus sign in front when negative.
pub open spec fn spec_decimal(i: int) -> Seq<u8> {
    if i < 0 {
        seq![45u8] + spec_decimal_nat((-i) as nat)
    } else {
        spec_decimal_nat(i as nat)
    }
}

/// The tokens with a delimiter between each two of them.
pub open spec fn spec_join(tokens: Seq<Seq<u8>>) -> Seq<u8>
    decreases tokens.len(),
{
    if tokens.len() == 0 {
        Seq::empty()
    } else if tokens.len() == 1 {
        tokens[0]
    } else {
        spec_join(tokens.drop_last()) + seq![DELIMITER] + tokens.last()
    }
}

/// Splitting loses nothing: no token holds a delimiter, and the tokens
/// joined by delimiters are the text that was split.
pub proof fn lemma_split_join(s: Seq<u8>)
    ensures
        spec_split(s).len() >= 1,
        forall|k: int, j: int|
            0 <= k < spec_split(s).len() && 0 <= j < spec_split(s)[k].len() ==> spec_split(
                s,
            )[k][j] != DELIMITER,
        spec_join(spec_split(s)) == s,
    decreases s.len(),
{
    if s.len() == 0 {
        assert(spec_join(spec_split(s)) =~= s);
    } else {
        let before = spec_split(s.drop_last());
        lemma_split_join(s.drop_last());
        if s.last() == DELIMITER {
            let now = before.push(Seq::<u8>::empty());
            assert(now.drop_last() =~= before);
            assert(spec_join(now) =~= s.drop_last() + seq![DELIMITER]);
            assert(s.drop_last() + seq![DELIMITER] =~= s);
        } else {
            let grown = before.last().push(s.last());
            let now = before.drop_last().push(grown);
            assert(now.drop_last() =~= before.drop_last());
            if before.len() == 1 {
                assert(before[0] == s.drop_last());
                assert(spec_join(now) =~= s);
            } else {
                assert(spec_join(before) == spec_join(before.drop_last()) + seq![DELIMITER]
                    + before.last());
                assert(spec_join(now) =~= spec_join(before).push(s.last()));
                assert(s.drop_last().push(s.last()) =~= s);
            }
        }
    }
}

/// Whether `needle` occurs in `hay` at offset `at`.
pub fn occurs_at(hay: &[u8], needle: &[u8], at: usize) -> (r: bool)
    requires
        at + needle@.len() <= hay@.len(),
    ensures
        r == spec_occurs_at(hay@, needle@, at as int),
{
    let hay_len: usize = hay.len();
    let mut j: usize = 0;
    while j < needle.len()
        invariant
            j <= needle@.len(),
            at + needle@.len() <= hay@.len() == hay_len,
            forall|k: int| 0 <= k < j ==> hay@[at + k] == needle@[k],
        decreases needle@.len() - j,
    {
        if hay[at + j] != needle[j] {
            proof {
                assert(hay@.subrange(at as int, at + needle@.len())[j as int] != needle@[j as int]);
            }
            return false;
        }
        j += 1;
    }
    assert(hay@.subrange(at as int, at + needle@.len()) =~= needle@);
    true
}

/// Whether two byte strings are the same.
pub fn bytes_eq(a: &[u8], b: &[u8]) -> (r: bool)
    ensures
        r == (a@ == b@),
{
    if a.len() != b.len() {
        return false;
    }
    let r: bool = occurs_at(a, b, 0);
    proof {
        assert(a@.subrange(0, a@.len() as int) =~= a@);
    }
    r
}

/// Whether `needle` occurs somewhere in `hay`.
pub fn contains(hay: &[u8], needle: &[u8]) -> (r: bool)
    ensures
        r == spec_contains(hay@, needle@),
{
    if needle.len() > hay.len() {
        return false;
    }
    let last: usize = hay.len() - needle.len();
    let mut i: usize = 0;
    while i < last
        invariant
            last + needle@.len() == hay@.len(),
            i <= last,
            forall|k: int| 0 <= k < i ==> !spec_occurs_at(hay@, needle@, k),
        decreases last - i,
    {
        if occurs_at(hay, needle, i) {
            return true;
        }
        i += 1;
    }
    occurs_at(hay, needle, last)
}

/// Splits `blob` at every delimiter.
pub fn parse_and_store(blob: &[u8]) -> (r: Vec<Vec<u8>>)
    ensures
        r@.len() == spec_split(blob@).len(),
        forall|k: int| 0 <= k < r@.len() ==> r@[k]@ == #[trigger] spec_split(blob@)[k],
{
    let mut done: Vec<Vec<u8>> = Vec::new();
    let mut cur: Vec<u8> = Vec::new();
    let mut i: usize = 0;
    assert(blob@.subrange(0, 0) =~= Seq::<u8>::empty());
    while i < blob.len()
        invariant
            i <= blob@.len(),
            spec_split(blob@.subrange(0, i as int)).len() == done@.len() + 1,
            spec_split(blob@.subrange(0, i as int)).last() == cur@,
            forall|k: int| 0 <= k < done@.len() ==> done@[k]@ == #[trigger] spec_split(
                blob@.subrange(0, i as int),
            )[k],
        decreases blob@.len() - i,
    {
        let ghost prev = blob@.subrange(0, i as int);
        let ghost next = blob@.subrange(0, i + 1);
        assert(next.drop_last() =~= prev);
        assert(next.last() == blob@[i as int]);
        let b: u8 = blob[i];
        if b == DELIMITER {
            done.push(cur);
            cur = Vec::new();
        } else {
            cur.push(b);
        }
        i += 1;
    }
    assert(blob@.subrange(0, blob@.len() as int) =~= blob@);
    done.push(cur);
    done
}

/// Appends the decimal digits of `n` to `out`.
pub fn push_decimal(out: &mut Vec<u8>, n: u32)
    ensures
        final(out)@ == old(out)@ + spec_decimal_nat(n as nat),
    decreases n,
{
    if n >= 10 {
        push_decimal(out, n / 10);
    }
    let digit: u8 = (48 + n % 10) as u8;
    out.push(digit);
    assert(out@ =~= old(out)@ + spec_decimal_nat(n as nat));
}

/// The decimal rendering of a signed 32-bit value.
pub fn i32_to_decimal(v: i32) -> (r: Vec<u8>)
    ensures
        r@ == spec_decimal(v as int),
{
    let mut out: Vec<u8> = Vec::new();
    if v < 0 {
        out.push(45u8);
        let magnitude: u32 = if v == i32::MIN {
            0x8000_0000
        } else {
            (-v) as u32
        };
        push_decimal(&mut out, magnitude);
    } else {
        push_decimal(&mut out, v as u32);
    }
    assert(out@ =~= spec_decimal(v as int));
    out
}

} // verus!
