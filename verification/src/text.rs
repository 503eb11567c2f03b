//! Character-level building blocks for the wire frames: JSON string
//! escaping and decimal rendering of integers, each with an exact
//! sequence-level specification.

use vstd::prelude::*;
use vstd::std_specs::iter::IteratorSpec;

verus! {

/// The hexadecimal digit character for `n` (lower case), for `0 <= n < 16`.
pub open spec fn hex_digit(n: int) -> char {
    if n == 0 { '0' } else if n == 1 { '1' } else if n == 2 { '2' } else if n == 3 { '3'
    } else if n == 4 { '4' } else if n == 5 { '5' } else if n == 6 { '6' } else if n == 7 { '7'
    } else if n == 8 { '8' } else if n == 9 { '9' } else if n == 10 { 'a' } else if n == 11 { 'b'
    } else if n == 12 { 'c' } else if n == 13 { 'd' } else if n == 14 { 'e' } else { 'f' }
}

/// How one character appears inside a JSON string literal.
pub open spec fn esc_char(c: char) -> Seq<char> {
    if c == '"' {
        seq!['\\', '"']
    } else if c == '\\' {
        seq!['\\', '\\']
    } else if c == '\n' {
        seq!['\\', 'n']
    } else if c == '\r' {
        seq!['\\', 'r']
    } else if c == '\t' {
        seq!['\\', 't']
    } else if (c as u32) < 32 {
        seq!['\\', 'u', '0', '0', hex_digit((c as u32) as int / 16), hex_digit((c as u32) as int % 16)]
    } else {
        seq![c]
    }
}

/// The body of a JSON string literal holding exactly the characters of `s`.
pub open spec fn json_escape(s: Seq<char>) -> Seq<char>
    decreases s.len(),
{
    if s.len() == 0 {
        Seq::empty()
    } else {
        json_escape(s.drop_last()) + esc_char(s.last())
    }
}

/// The decimal digits of `n`, most significant first, no sign, no padding.
pub open spec fn dec_nat(n: nat) -> Seq<char>
    decreases n,
{
    if n < 10 {
        seq![hex_digit(n as int)]
    } else {
        dec_nat(n / 10) + seq![hex_digit((n % 10) as int)]
    }
}

/// The decimal rendering of `n`, with a leading `-` when negative.
pub open spec fn dec_int(n: int) -> Seq<char> {
    if n >= 0 {
        dec_nat(n as nat)
    } else {
        seq!['-'] + dec_nat((-n) as nat)
    }
}

/// `needle` occurs contiguously somewhere in `hay`.
pub open spec fn contains_seq(hay: Seq<char>, needle: Seq<char>) -> bool {
    exists|i: int| 0 <= i && i + needle.len() <= hay.len() && #[trigger] hay.subrange(i, i + needle.len()) == needle
}

/// Sequence concatenation associates; stated once so frame proofs can
/// regroup the pieces they append one at a time.
pub proof fn seq_assoc<A>(a: Seq<A>, b: Seq<A>, c: Seq<A>)
    ensures
        (a + b) + c == a + (b + c),
{
    assert((a + b) + c =~= a + (b + c));
}

/// Relies on `String::push` from std: appends exactly one character at
/// the end of the string.
#[verifier::external_body]
pub(crate) fn push_char(out: &mut String, c: char)
    ensures
        final(out)@ == old(out)@ + seq![c],
{
    out.push(c);
}

/// The hexadecimal digit character for `d`, executable counterpart of
/// [`hex_digit`].
pub fn hex_digit_char(d: u32) -> (c: char)
    requires
        d < 16,
    ensures
        c == hex_digit(d as int),
{
    if d == 0 { '0' } else if d == 1 { '1' } else if d == 2 { '2' } else if d == 3 { '3'
    } else if d == 4 { '4' } else if d == 5 { '5' } else if d == 6 { '6' } else if d == 7 { '7'
    } else if d == 8 { '8' } else if d == 9 { '9' } else if d == 10 { 'a' } else if d == 11 { 'b'
    } else if d == 12 { 'c' } else if d == 13 { 'd' } else if d == 14 { 'e' } else { 'f' }
}

fn push_escaped_char(out: &mut String, c: char)
    ensures
        final(out)@ == old(out)@ + esc_char(c),
{
    if c == '"' {
        push_char(out, '\\');
        push_char(out, '"');
        proof {
            assert(final(out)@ =~= old(out)@ + esc_char(c));
        }
    } else if c == '\\' {
        push_char(out, '\\');
        push_char(out, '\\');
        proof {
            assert(final(out)@ =~= old(out)@ + esc_char(c));
        }
    } else if c == '\n' {
        push_char(out, '\\');
        push_char(out, 'n');
        proof {
            assert(final(out)@ =~= old(out)@ + esc_char(c));
        }
    } else if c == '\r' {
        push_char(out, '\\');
        push_char(out, 'r');
        proof {
            assert(final(out)@ =~= old(out)@ + esc_char(c));
        }
    } else if c == '\t' {
        push_char(out, '\\');
        push_char(out, 't');
        proof {
            assert(final(out)@ =~= old(out)@ + esc_char(c));
        }
    } else {
        let u = c as u32;
        if u < 32 {
            push_char(out, '\\');
            push_char(out, 'u');
            push_char(out, '0');
            push_char(out, '0');
            push_char(out, hex_digit_char(u / 16));
            push_char(out, hex_digit_char(u % 16));
            proof {
                assert(final(out)@ =~= old(out)@ + esc_char(c));
            }
        } else {
            push_char(out, c);
            proof {
                assert(final(out)@ =~= old(out)@ + esc_char(c));
            }
        }
    }
}

/// Appends the JSON-escaped form of `s` onto `out`, one pass over the
/// characters.
pub fn escape_onto(out: &mut String, s: &str)
    ensures
        final(out)@ == old(out)@ + json_escape(s@),
{
    broadcast use vstd::string::axiom_spec_iter;

    let mut it = s.chars();
    let ghost mut done: Seq<char> = Seq::empty();
    proof {
        assert(done + it.remaining() =~= s@);
    }
    loop
        invariant_except_break
            it.obeys_prophetic_iter_laws(),
            done + it.remaining() == s@,
            done.len() <= s@.len(),
            out@ == old(out)@ + json_escape(done),
        ensures
            out@ == old(out)@ + json_escape(s@),
        decreases s@.len() - done.len(),
    {
        match it.next() {
            Option::Some(c) => {
                push_escaped_char(out, c);
                proof {
                    assert((done + seq![c]).drop_last() =~= done);
                    assert((done + seq![c]).last() == c);
                    seq_assoc(old(out)@, json_escape(done), esc_char(c));
                    done = done + seq![c];
                    assert(done + it.remaining() =~= s@);
                }
            },
            Option::None => {
                proof {
                    assert(done =~= s@);
                }
                break;
            },
        }
    }
}

/// Appends the decimal digits of `n` onto `out`.
pub fn push_u64(out: &mut String, n: u64)
    ensures
        final(out)@ == old(out)@ + dec_nat(n as nat),
    decreases n,
{
    if n >= 10 {
        push_u64(out, n / 10);
        let d = hex_digit_char((n % 10) as u32);
        push_char(out, d);
        proof {
            seq_assoc(old(out)@, dec_nat((n / 10) as nat), seq![hex_digit((n % 10) as int)]);
        }
    } else {
        let d = hex_digit_char(n as u32);
        push_char(out, d);
    }
}

/// Appends the decimal rendering of `n` onto `out`, sign included.
pub fn push_i64(out: &mut String, n: i64)
    ensures
        final(out)@ == old(out)@ + dec_int(n as int),
{
    if n >= 0 {
        push_u64(out, n as u64);
    } else {
        push_char(out, '-');
        let wide: i128 = -(n as i128);
        let m: u64 = wide as u64;
        push_u64(out, m);
        proof {
            assert(m as nat == (-(n as int)) as nat);
            seq_assoc(old(out)@, seq!['-'], dec_nat((-(n as int)) as nat));
        }
    }
}

} // verus!
