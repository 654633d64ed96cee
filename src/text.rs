//! Plain text helpers: decimal rendering of integers, joining and splitting
//! on commas, and UTF-8 decoding and encoding.

use vstd::prelude::*;
use vstd::string::*;
use vstd::utf8::{decode_utf8, encode_utf8, encode_utf8_decode_utf8};

verus! {

/// The decimal digit character for `d` (which is below ten).
pub open spec fn digit_char(d: nat) -> char {
    if d == 0 { '0' } else if d == 1 { '1' } else if d == 2 { '2' } else if d == 3 { '3' }
    else if d == 4 { '4' } else if d == 5 { '5' } else if d == 6 { '6' } else if d == 7 { '7' }
    else if d == 8 { '8' } else { '9' }
}

/// Decimal digits of a natural number, without leading zeros ("0" for zero).
pub open spec fn nat_digits(n: nat) -> Seq<char>
    decreases n,
{
    if n < 10 {
        seq![digit_char(n)]
    } else {
        nat_digits(n / 10).push(digit_char(n % 10))
    }
}

/// Decimal text of an integer, with a leading '-' when negative.
pub open spec fn int_digits(i: int) -> Seq<char> {
    if i < 0 {
        seq!['-'] + nat_digits((-i) as nat)
    } else {
        nat_digits(i as nat)
    }
}

fn digit_str(d: u128) -> (r: &'static str)
    requires
        d < 10,
    ensures
        r@ == seq![digit_char(d as nat)],
{
    proof {
        reveal_strlit("0");
        reveal_strlit("1");
        reveal_strlit("2");
        reveal_strlit("3");
        reveal_strlit("4");
        reveal_strlit("5");
        reveal_strlit("6");
        reveal_strlit("7");
        reveal_strlit("8");
        reveal_strlit("9");
    }
    if d == 0 { "0" } else if d == 1 { "1" } else if d == 2 { "2" } else if d == 3 { "3" }
    else if d == 4 { "4" } else if d == 5 { "5" } else if d == 6 { "6" } else if d == 7 { "7" }
    else if d == 8 { "8" } else { "9" }
}

/// Renders `n` in decimal.
pub fn decimal_text(n: u128) -> (r: String)
    ensures
        r@ == nat_digits(n as nat),
    decreases n,
{
    if n < 10 {
        String::from_str(digit_str(n))
    } else {
        let prefix = decimal_text(n / 10);
        prefix.concat(digit_str(n % 10))
    }
}

/// Renders `i` in decimal, with a leading '-' when negative.
pub fn int_text(i: i64) -> (r: String)
    ensures
        r@ == int_digits(i as int),
{
    if i < 0 {
        let magnitude: u64 = if i == i64::MIN { 9223372036854775808u64 } else { (-i) as u64 };
        let digits = decimal_text(magnitude as u128);
        proof { reveal_strlit("-"); }
        String::from_str("-").concat(digits.as_str())
    } else {
        decimal_text(i as u128)
    }
}


/// Comma-separated text of `parts`, in order.
pub open spec fn join_commas(parts: Seq<Seq<char>>) -> Seq<char>
    decreases parts.len(),
{
    if parts.len() == 0 {
        seq![]
    } else if parts.len() == 1 {
        parts[0]
    } else {
        join_commas(parts.drop_last()) + seq![','] + parts.last()
    }
}

/// The segments of `s` between commas, in order; text without a comma is a
/// single segment, so the result is never empty.
pub open spec fn split_commas(s: Seq<char>) -> Seq<Seq<char>>
    decreases s.len(),
{
    if s.len() == 0 {
        seq![seq![]]
    } else {
        let init = split_commas(s.drop_last());
        if s.last() == ',' {
            init.push(seq![])
        } else {
            init.update(init.len() - 1, init.last().push(s.last()))
        }
    }
}

pub proof fn lemma_split_commas_nonempty(s: Seq<char>)
    ensures
        split_commas(s).len() >= 1,
    decreases s.len(),
{
    if s.len() > 0 {
        lemma_split_commas_nonempty(s.drop_last());
    }
}

/// Splitting text on commas and joining the segments with commas gives the
/// text back.
pub proof fn lemma_join_split_commas(s: Seq<char>)
    ensures
        join_commas(split_commas(s)) == s,
    decreases s.len(),
{
    if s.len() > 0 {
        let init = split_commas(s.drop_last());
        lemma_split_commas_nonempty(s.drop_last());
        lemma_join_split_commas(s.drop_last());
        if s.last() == ',' {
            assert(init.push(seq![]).drop_last() =~= init);
            assert(s.drop_last() + seq![','] + Seq::<char>::empty() =~= s);
        } else {
            let upd = init.update(init.len() - 1, init.last().push(s.last()));
            if init.len() == 1 {
                assert(s.drop_last().push(s.last()) =~= s);
            } else {
                assert(upd.drop_last() =~= init.drop_last());
                assert(join_commas(init.drop_last()) + seq![','] + init.last().push(s.last())
                    =~= (join_commas(init.drop_last()) + seq![','] + init.last()).push(s.last()));
                assert(s.drop_last().push(s.last()) =~= s);
            }
        }
    }
}

/// Joins `parts` with commas.
pub fn join_with_commas(parts: &Vec<String>) -> (r: String)
    ensures
        r@ == join_commas(parts@.map_values(|p: String| p@)),
{
    let ghost views = parts@.map_values(|p: String| p@);
    if parts.len() == 0 {
        return String::new();
    }
    let mut out = parts[0].clone();
    let mut i: usize = 1;
    proof {
        assert(views.take(1).drop_last() =~= Seq::<Seq<char>>::empty());
    }
    while i < parts.len()
        invariant
            1 <= i <= parts.len(),
            views == parts@.map_values(|p: String| p@),
            out@ == join_commas(views.take(i as int)),
        decreases parts.len() - i,
    {
        proof {
            reveal_strlit(",");
            assert(views.take(i as int + 1).drop_last() =~= views.take(i as int));
        }
        out.append(",");
        out.append(parts[i].as_str());
        i = i + 1;
    }
    proof {
        assert(views.take(parts.len() as int) =~= views);
    }
    out
}

/// Splits `s` at every comma.
pub fn split_on_commas(s: &str) -> (r: Vec<String>)
    ensures
        r@.map_values(|p: String| p@) == split_commas(s@),
{
    let n = s.unicode_len();
    let mut parts: Vec<String> = Vec::new();
    let mut start: usize = 0;
    let mut i: usize = 0;
    proof {
        assert(s@.take(0) =~= Seq::<char>::empty());
        assert(parts@.map_values(|p: String| p@).push(s@.subrange(0, 0)) =~= seq![seq![]]);
    }
    while i < n
        invariant
            n == s@.len(),
            start <= i <= n,
            split_commas(s@.take(i as int))
                == parts@.map_values(|p: String| p@).push(s@.subrange(start as int, i as int)),
        decreases n - i,
    {
        let c = s.get_char(i);
        proof {
            assert(s@.take(i as int + 1).drop_last() =~= s@.take(i as int));
        }
        if c == ',' {
            let seg = s.substring_char(start, i).to_owned();
            let ghost before = parts@.map_values(|p: String| p@);
            parts.push(seg);
            proof {
                assert(parts@.map_values(|p: String| p@) =~= before.push(s@.subrange(start as int, i as int)));
                assert(s@.subrange(i as int + 1, i as int + 1) =~= Seq::<char>::empty());
            }
            start = i + 1;
        } else {
            proof {
                let v = parts@.map_values(|p: String| p@);
                assert(s@.subrange(start as int, i as int).push(c)
                    =~= s@.subrange(start as int, i as int + 1));
                assert(v.push(s@.subrange(start as int, i as int)).update(v.len() as int,
                    s@.subrange(start as int, i as int).push(c))
                    =~= v.push(s@.subrange(start as int, i as int + 1)));
            }
        }
        i = i + 1;
    }
    let last = s.substring_char(start, n).to_owned();
    let ghost before = parts@.map_values(|p: String| p@);
    parts.push(last);
    proof {
        assert(s@.take(n as int) =~= s@);
        assert(parts@.map_values(|p: String| p@) =~= before.push(s@.subrange(start as int, n as int)));
    }
    parts
}


/// Whether `b` is the UTF-8 encoding of some text.
pub open spec fn is_utf8(b: Seq<u8>) -> bool {
    exists|c: Seq<char>| encode_utf8(c) == b
}

/// Relies on String::from_utf8: it succeeds exactly on valid UTF-8, and the
/// string then holds those bytes.
#[verifier::external_body]
fn string_from_utf8(b: Vec<u8>) -> (r: Option<String>)
    ensures
        r is Some <==> is_utf8(b@),
        r matches Some(s) ==> encode_utf8(s@) == b@,
{
    String::from_utf8(b).ok()
}

/// The text that the bytes `b` encode in UTF-8, if they are valid UTF-8.
pub fn decode_text(b: &Vec<u8>) -> (r: Option<String>)
    ensures
        r is Some <==> is_utf8(b@),
        r matches Some(s) ==> s@ == decode_utf8(b@),
{
    let r = string_from_utf8(b.clone());
    proof {
        if r is Some {
            encode_utf8_decode_utf8(r->Some_0@);
        }
    }
    r
}

/// The bytes of `s` in UTF-8.
pub fn utf8_bytes(s: &str) -> (r: Vec<u8>)
    ensures
        r@ == encode_utf8(s@),
{
    let mut r: Vec<u8> = Vec::new();
    r.extend_from_slice(s.as_bytes());
    assert(r@ =~= encode_utf8(s@));
    r
}

} // verus!
