//! Pure text-building helpers: decimal rendering of signed integers, JSON
//! string escaping, and the MarkdownV2 escape utility.

use vstd::prelude::*;
use vstd::string::*;

verus! {

/// The character for a single digit value below 16.
pub open spec fn digit_char(d: nat) -> char {
    if d == 0 {
        '0'
    } else if d == 1 {
        '1'
    } else if d == 2 {
        '2'
    } else if d == 3 {
        '3'
    } else if d == 4 {
        '4'
    } else if d == 5 {
        '5'
    } else if d == 6 {
        '6'
    } else if d == 7 {
        '7'
    } else if d == 8 {
        '8'
    } else if d == 9 {
        '9'
    } else if d == 10 {
        'a'
    } else if d == 11 {
        'b'
    } else if d == 12 {
        'c'
    } else if d == 13 {
        'd'
    } else if d == 14 {
        'e'
    } else {
        'f'
    }
}

/// Decimal digits of `n`, most significant first, with no leading zeros
/// (except for `n == 0`, which is the single digit `0`).
pub open spec fn dec_digits(n: nat) -> Seq<char>
    decreases n,
{
    if n < 10 {
        seq![digit_char(n)]
    } else {
        dec_digits(n / 10).push(digit_char(n % 10))
    }
}

/// Decimal rendering of a signed value: the digits of the magnitude, with a
/// leading minus sign for negative values.
pub open spec fn dec_int(v: int) -> Seq<char> {
    if v < 0 {
        seq!['-'] + dec_digits((-v) as nat)
    } else {
        dec_digits(v as nat)
    }
}

/// The single-character string for a digit value below 16.
fn digit_str(d: u64) -> (r: &'static str)
    requires
        d < 16,
    ensures
        r@ == seq![digit_char(d as nat)],
{
    let r: &'static str = if d == 0 {
        "0"
    } else if d == 1 {
        "1"
    } else if d == 2 {
        "2"
    } else if d == 3 {
        "3"
    } else if d == 4 {
        "4"
    } else if d == 5 {
        "5"
    } else if d == 6 {
        "6"
    } else if d == 7 {
        "7"
    } else if d == 8 {
        "8"
    } else if d == 9 {
        "9"
    } else if d == 10 {
        "a"
    } else if d == 11 {
        "b"
    } else if d == 12 {
        "c"
    } else if d == 13 {
        "d"
    } else if d == 14 {
        "e"
    } else {
        "f"
    };
    proof {
        reveal_strlit("0");
        reveal_strlit("1");
        reveal_strlit("2");
        reveal_strlit("3");
        reveal_strlit("4");
        reveal_strlit("5");
        reveal_strlit("6");
        reveal_strlit("7");
        reveal_strlit("8");
        reveal_strlit("9");
        reveal_strlit("a");
        reveal_strlit("b");
        reveal_strlit("c");
        reveal_strlit("d");
        reveal_strlit("e");
        reveal_strlit("f");
        assert(r@ =~= seq![digit_char(d as nat)]);
    }
    r
}

/// The digit values in `ds` (least significant first) rendered as characters,
/// most significant first.
pub open spec fn digits_rev_chars(ds: Seq<u64>) -> Seq<char> {
    ds.map(|i: int, d: u64| digit_char(d as nat)).reverse()
}

proof fn lemma_digits_rev_push(ds: Seq<u64>, d: u64)
    ensures
        digits_rev_chars(ds.push(d)) =~= seq![digit_char(d as nat)] + digits_rev_chars(ds),
{
    let lhs = digits_rev_chars(ds.push(d));
    let rhs = seq![digit_char(d as nat)] + digits_rev_chars(ds);
    assert forall|i: int| 0 <= i < lhs.len() implies lhs[i] == rhs[i] by {
        if i == 0 {
            assert(ds.push(d)[ds.len() as int] == d);
        } else {
            assert(ds.push(d)[ds.len() - i] == ds[ds.len() - i]);
        }
    }
}

/// The decimal digits of `m`, most significant first.
fn u64_to_string(m: u64) -> (r: String)
    ensures
        r@ == dec_digits(m as nat),
{
    if m == 0 {
        let mut r = String::new();
        r.append("0");
        proof {
            reveal_strlit("0");
            assert(r@ =~= dec_digits(0));
        }
        return r;
    }
    let mut digits: Vec<u64> = Vec::new();
    let mut n: u64 = m;
    proof {
        assert(digits_rev_chars(digits@) =~= Seq::<char>::empty());
        assert(dec_digits(m as nat) =~= dec_digits(n as nat) + digits_rev_chars(digits@));
    }
    while n > 0
        invariant
            forall|k: int| 0 <= k < digits@.len() ==> digits@[k] < 10,
            n > 0 ==> dec_digits(m as nat) == dec_digits(n as nat) + digits_rev_chars(digits@),
            n == 0 ==> digits@.len() > 0 && dec_digits(m as nat) == digits_rev_chars(digits@),
        decreases n,
    {
        let d: u64 = n % 10;
        let ghost old_digits = digits@;
        let ghost n0 = n as nat;
        digits.push(d);
        n = n / 10;
        proof {
            lemma_digits_rev_push(old_digits, d);
            if n0 < 10 {
                assert(dec_digits(n0) == seq![digit_char(n0)]);
                assert(d as nat == n0);
                assert(dec_digits(m as nat) =~= digits_rev_chars(digits@));
            } else {
                assert(dec_digits(n0) == dec_digits(n0 / 10).push(digit_char(n0 % 10)));
                assert(dec_digits(n0 / 10).push(digit_char(d as nat)) =~= dec_digits(n0 / 10)
                    + seq![digit_char(d as nat)]);
                assert(dec_digits(m as nat) =~= dec_digits(n as nat) + digits_rev_chars(digits@));
            }
        }
    }
    let len: usize = digits.len();
    let mut r = String::new();
    let mut i: usize = len;
    proof {
        assert(r@ =~= digits_rev_chars(digits@).take(0));
    }
    while i > 0
        invariant
            i <= len,
            len == digits@.len(),
            forall|k: int| 0 <= k < digits@.len() ==> digits@[k] < 10,
            dec_digits(m as nat) == digits_rev_chars(digits@),
            r@ == digits_rev_chars(digits@).take(len - i),
        decreases i,
    {
        i = i - 1;
        let ds = digit_str(digits[i]);
        r.append(ds);
        proof {
            let rev = digits_rev_chars(digits@);
            assert(rev[len - i - 1] == digit_char(digits@[i as int] as nat));
            assert(rev.take(len - i) =~= rev.take(len - i - 1) + seq![
                digit_char(digits@[i as int] as nat),
            ]);
        }
    }
    proof {
        assert(digits_rev_chars(digits@).take(len as int) =~= digits_rev_chars(digits@));
    }
    r
}

/// Decimal rendering of `v`, exactly as `dec_int` describes it.
pub fn i64_to_string(v: i64) -> (r: String)
    ensures
        r@ == dec_int(v as int),
{
    if v >= 0 {
        return u64_to_string(v as u64);
    }
    let m: u64 = if v == i64::MIN {
        9223372036854775808u64
    } else {
        (-v) as u64
    };
    let mut r = String::new();
    r.append("-");
    let mag = u64_to_string(m);
    r.append(mag.as_str());
    proof {
        reveal_strlit("-");
        assert(m as nat == (-(v as int)) as nat);
        assert(r@ =~= seq!['-'] + dec_digits((-(v as int)) as nat));
    }
    r
}

/// How one character is written inside a JSON string literal: quotes,
/// backslashes and the common control characters get a two-character escape,
/// other control characters a `\u00XX` escape, and everything else stands as
/// itself.
pub open spec fn json_escape_char(c: char) -> Seq<char> {
    if c == '"' {
        seq!['\\', '"']
    } else if c == '\\' {
        seq!['\\', '\\']
    } else if c == '\n' {
        seq!['\\', 'n']
    } else if c == '\r' {
        seq!['\\', 'r']
    } else if c == '\t' {
        seq!['\\', 't']
    } else if (c as u32) < 32 {
        seq!['\\', 'u', '0', '0', digit_char(((c as u32) / 16) as nat), digit_char(
            ((c as u32) % 16) as nat,
        )]
    } else {
        seq![c]
    }
}

/// The body of a JSON string literal holding exactly the characters of `s`.
pub open spec fn json_escaped(s: Seq<char>) -> Seq<char>
    decreases s.len(),
{
    if s.len() == 0 {
        Seq::empty()
    } else {
        json_escaped(s.drop_last()) + json_escape_char(s.last())
    }
}

/// Escapes `s` for use inside a JSON string literal.
pub fn escape_json(s: &str) -> (r: String)
    ensures
        r@ == json_escaped(s@),
{
    let n: usize = s.unicode_len();
    let mut r = String::new();
    let mut i: usize = 0;
    proof {
        assert(s@.take(0) =~= Seq::<char>::empty());
    }
    while i < n
        invariant
            i <= n,
            n == s@.len(),
            r@ == json_escaped(s@.take(i as int)),
        decreases n - i,
    {
        let ghost prefix = r@;
        let c = s.get_char(i);
        if c == '"' {
            r.append("\\\"");
            proof {
                reveal_strlit("\\\"");
                assert(r@ =~= prefix + json_escape_char(c));
            }
        } else if c == '\\' {
            r.append("\\\\");
            proof {
                reveal_strlit("\\\\");
                assert(r@ =~= prefix + json_escape_char(c));
            }
        } else if c == '\n' {
            r.append("\\n");
            proof {
                reveal_strlit("\\n");
                assert(r@ =~= prefix + json_escape_char(c));
            }
        } else if c == '\r' {
            r.append("\\r");
            proof {
                reveal_strlit("\\r");
                assert(r@ =~= prefix + json_escape_char(c));
            }
        } else if c == '\t' {
            r.append("\\t");
            proof {
                reveal_strlit("\\t");
                assert(r@ =~= prefix + json_escape_char(c));
            }
        } else if (c as u32) < 32 {
            r.append("\\u00");
            let v: u32 = c as u32;
            let hi = digit_str((v / 16) as u64);
            let lo = digit_str((v % 16) as u64);
            r.append(hi);
            r.append(lo);
            proof {
                reveal_strlit("\\u00");
                assert(r@ =~= prefix + json_escape_char(c));
            }
        } else {
            let piece = s.substring_char(i, i + 1);
            r.append(piece);
            proof {
                assert(piece@ =~= seq![c]);
                assert(r@ =~= prefix + json_escape_char(c));
            }
        }
        proof {
            assert(s@.take(i + 1).drop_last() =~= s@.take(i as int));
            assert(s@.take(i + 1).last() == c);
            assert(r@ =~= json_escaped(s@.take(i + 1)));
        }
        i = i + 1;
    }
    proof {
        assert(s@.take(n as int) =~= s@);
    }
    r
}

/// The characters that Telegram's MarkdownV2 format requires to be escaped.
pub open spec fn is_markdown_special(c: char) -> bool {
    c == '_' || c == '*' || c == '[' || c == ']' || c == '(' || c == ')' || c == '~' || c == '`'
        || c == '>' || c == '#' || c == '+' || c == '-' || c == '=' || c == '|' || c == '{' || c
        == '}' || c == '.' || c == '!'
}

/// How one character is written in MarkdownV2-escaped text: special characters
/// get a single backslash prefix, all others stand as themselves.
pub open spec fn md_escape_char(c: char) -> Seq<char> {
    if is_markdown_special(c) {
        seq!['\\', c]
    } else {
        seq![c]
    }
}

/// The MarkdownV2-escaped form of `s`.
pub open spec fn md_escaped(s: Seq<char>) -> Seq<char>
    decreases s.len(),
{
    if s.len() == 0 {
        Seq::empty()
    } else {
        md_escaped(s.drop_last()) + md_escape_char(s.last())
    }
}

/// Escapes every MarkdownV2 special character in `s` with a single backslash,
/// leaving all other characters unchanged.
pub fn escape_markdown_v2(s: &str) -> (r: String)
    ensures
        r@ == md_escaped(s@),
{
    let n: usize = s.unicode_len();
    let mut r = String::new();
    let mut i: usize = 0;
    proof {
        assert(s@.take(0) =~= Seq::<char>::empty());
    }
    while i < n
        invariant
            i <= n,
            n == s@.len(),
            r@ == md_escaped(s@.take(i as int)),
        decreases n - i,
    {
        let ghost prefix = r@;
        let c = s.get_char(i);
        let special = c == '_' || c == '*' || c == '[' || c == ']' || c == '(' || c == ')' || c
            == '~' || c == '`' || c == '>' || c == '#' || c == '+' || c == '-' || c == '=' || c
            == '|' || c == '{' || c == '}' || c == '.' || c == '!';
        if special {
            r.append("\\");
            proof {
                reveal_strlit("\\");
                assert(r@ =~= prefix + seq!['\\']);
            }
        }
        let piece = s.substring_char(i, i + 1);
        r.append(piece);
        proof {
            assert(piece@ =~= seq![c]);
            assert(r@ =~= prefix + md_escape_char(c));
            assert(s@.take(i + 1).drop_last() =~= s@.take(i as int));
            assert(s@.take(i + 1).last() == c);
            assert(r@ =~= md_escaped(s@.take(i + 1)));
        }
        i = i + 1;
    }
    proof {
        assert(s@.take(n as int) =~= s@);
    }
    r
}

} // verus!
