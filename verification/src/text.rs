//! Text: decimal numbers, lossy decoding and line ends.
use vstd::prelude::*;
use vstd::string::{StrSliceExecFns, StringExecFns};

verus! {

/// The characters of each string, in order.
pub open spec fn strings(v: Seq<String>) -> Seq<Seq<char>> {
    Seq::new(v.len(), |i: int| v[i]@)
}

/// The character that stands for a decimal digit.
pub open spec fn digit(d: nat) -> char {
    (('0' as int) + d) as char
}

/// A natural number in decimal, without leading zeros.
pub open spec fn decimal_nat(n: nat) -> Seq<char>
    decreases n,
{
    if n < 10 {
        seq![digit(n)]
    } else {
        decimal_nat(n / 10).push(digit(n % 10))
    }
}

/// An integer in decimal, with a leading `-` below zero.
pub open spec fn decimal(n: int) -> Seq<char> {
    if n < 0 {
        seq!['-'] + decimal_nat((-n) as nat)
    } else {
        decimal_nat(n as nat)
    }
}

fn digit_str(d: u32) -> (r: &'static str)
    requires
        d < 10,
    ensures
        r@ == seq![digit(d as nat)],
{
    proof {
        reveal_strlit("0");
        reveal_strlit("1");
        reveal_strlit("2");
        reveal_strlit("3");
        reveal_strlit("4");
        reveal_strlit("5");
        reveal_strlit("6");
        reveal_strlit("7");
        reveal_strlit("8");
        reveal_strlit("9");
    }
    let r: &'static str = match d {
        0 => "0",
        1 => "1",
        2 => "2",
        3 => "3",
        4 => "4",
        5 => "5",
        6 => "6",
        7 => "7",
        8 => "8",
        _ => "9",
    };
    assert(r@ =~= seq![digit(d as nat)]);
    r
}

fn append_decimal(out: &mut String, n: u32)
    ensures
        final(out)@ == old(out)@ + decimal_nat(n as nat),
    decreases n,
{
    if n >= 10 {
        append_decimal(out, n / 10);
    }
    out.append(digit_str(n % 10));
    assert(out@ =~= old(out)@ + decimal_nat(n as nat));
}

/// `n` in decimal.
pub fn to_decimal(n: i32) -> (r: String)
    ensures
        r@ == decimal(n as int),
{
    let mut r = String::new();
    if n < 0 {
        proof {
            reveal_strlit("-");
        }
        r.append("-");
        assert(r@ =~= seq!['-']);
        let magnitude: i64 = -(n as i64);
        append_decimal(&mut r, magnitude as u32);
    } else {
        append_decimal(&mut r, n as u32);
        assert(r@ =~= decimal_nat(n as nat));
    }
    r
}

/// What `String::from_utf8_lossy` makes of a byte string.
pub uninterp spec fn utf8_lossy(bytes: Seq<u8>) -> Seq<char>;

/// Calls `String::from_utf8_lossy`. The result is named after the bytes; of the
/// name only one fact is claimed: valid UTF-8 decodes to the characters that it
/// encodes. How invalid bytes are replaced is left unsaid.
#[verifier::external_body]
pub(crate) fn from_utf8_lossy(bytes: &[u8]) -> (r: String)
    ensures
        r@ == utf8_lossy(bytes@),
        vstd::utf8::valid_utf8(bytes@) ==> r@ == vstd::utf8::decode_utf8(bytes@),
{
    String::from_utf8_lossy(bytes).into_owned()
}

/// `s` without its trailing line feeds and carriage returns.
pub open spec fn trimmed(s: Seq<char>) -> Seq<char>
    decreases s.len(),
{
    if s.len() > 0 && (s.last() == '\n' || s.last() == '\r') {
        trimmed(s.drop_last())
    } else {
        s
    }
}

/// Removes all line feeds and carriage returns from the end of a string.
pub fn trim_line_end(s: &str) -> (r: String)
    ensures
        r@ == trimmed(s@),
{
    let mut n: usize = s.unicode_len();
    assert(s@.take(n as int) =~= s@);
    while n > 0
        invariant_except_break
            n <= s@.len(),
            trimmed(s@.take(n as int)) == trimmed(s@),
        ensures
            n <= s@.len(),
            s@.take(n as int) == trimmed(s@),
        decreases n,
    {
        let c: char = s.get_char(n - 1);
        assert(s@.take(n as int).last() == c);
        if c != '\n' && c != '\r' {
            break;
        }
        assert(s@.take(n as int).drop_last() =~= s@.take(n - 1));
        n -= 1;
    }
    s.substring_char(0, n).to_string()
}

/// A list of strings is as long as what it stands for, and each string stands
/// for its own characters.
pub proof fn law_strings_are_kept(v: Seq<String>)
    ensures
        strings(v).len() == v.len(),
        forall|i: int| 0 <= i < v.len() ==> #[trigger] strings(v)[i] == v[i]@,
{
}

/// The number that a row of decimal digits stands for.
pub open spec fn number(s: Seq<char>) -> int
    decreases s.len(),
{
    if s.len() == 0 {
        0
    } else {
        number(s.drop_last()) * 10 + (s.last() as int - '0' as int)
    }
}

/// A row of decimal digits, without a leading zero unless it is the only one.
pub open spec fn numeral(s: Seq<char>) -> bool {
    &&& s.len() > 0
    &&& forall|i: int| 0 <= i < s.len() ==> '0' <= #[trigger] s[i] <= '9'
    &&& s.len() > 1 ==> s[0] != '0'
}

/// A natural number in decimal reads back as that number.
pub proof fn law_natural_numbers_read_back(n: nat)
    ensures
        numeral(decimal_nat(n)),
        number(decimal_nat(n)) == n,
        n > 0 ==> decimal_nat(n)[0] != '0',
    decreases n,
{
    if n >= 10 {
        law_natural_numbers_read_back(n / 10);
        assert(decimal_nat(n).drop_last() =~= decimal_nat(n / 10));
        assert(decimal_nat(n)[0] == decimal_nat(n / 10)[0]);
    } else {
        assert(number(decimal_nat(n).drop_last()) == 0);
    }
}

/// An integer in decimal reads back as that integer: below zero it is a minus
/// sign and the digits of its magnitude, else the digits alone.
pub proof fn law_integers_read_back(n: int)
    ensures
        n >= 0 ==> numeral(decimal(n)) && number(decimal(n)) == n,
        n < 0 ==> decimal(n).len() > 1 && decimal(n)[0] == '-' && numeral(decimal(n).skip(1))
            && number(decimal(n).skip(1)) == -n,
{
    if n >= 0 {
        law_natural_numbers_read_back(n as nat);
    } else {
        law_natural_numbers_read_back((-n) as nat);
        assert(decimal(n).skip(1) =~= decimal_nat((-n) as nat));
    }
}

/// Whether a character ends a line.
pub open spec fn line_end(c: char) -> bool {
    c == '\n' || c == '\r'
}

/// `kept` is `s` without the line ends at its end, and without anything else.
pub open spec fn cut(s: Seq<char>, kept: Seq<char>) -> bool {
    &&& kept.len() <= s.len()
    &&& kept == s.take(kept.len() as int)
    &&& forall|i: int| kept.len() <= i < s.len() ==> line_end(#[trigger] s[i])
    &&& kept.len() > 0 ==> !line_end(kept.last())
}

/// Trimming removes the line ends at the end of a string, all of them and
/// nothing else.
pub proof fn law_only_line_ends_are_trimmed(s: Seq<char>)
    ensures
        cut(s, trimmed(s)),
    decreases s.len(),
{
    if s.len() > 0 && line_end(s.last()) {
        let t = s.drop_last();
        law_only_line_ends_are_trimmed(t);
        assert(trimmed(s) =~= s.take(trimmed(s).len() as int));
        assert forall|i: int| trimmed(s).len() <= i < s.len() implies line_end(
            #[trigger] s[i],
        ) by {
            if i < t.len() {
                assert(t[i] == s[i]);
            }
        }
    } else {
        assert(s.take(s.len() as int) =~= s);
    }
}

} // verus!
