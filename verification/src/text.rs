//! Text building blocks: decimal numerals and placeholder substitution.

use vstd::prelude::*;
use vstd::string::*;

verus! {

/// The character of one decimal digit.
pub open spec fn digit(d: nat) -> char {
    if d == 0 {
        '0'
    } else if d == 1 {
        '1'
    } else if d == 2 {
        '2'
    } else if d == 3 {
        '3'
    } else if d == 4 {
        '4'
    } else if d == 5 {
        '5'
    } else if d == 6 {
        '6'
    } else if d == 7 {
        '7'
    } else if d == 8 {
        '8'
    } else {
        '9'
    }
}

/// The decimal numeral of `n`: no sign, no leading zero, `"0"` for zero.
pub open spec fn decimal(n: nat) -> Seq<char>
    decreases n,
{
    if n < 10 {
        seq![digit(n)]
    } else {
        decimal(n / 10).push(digit(n % 10))
    }
}

/// Whether `pattern` stands in `text` at position `at`.
pub open spec fn occurs_at(text: Seq<char>, pattern: Seq<char>, at: int) -> bool {
    &&& 0 <= at
    &&& at + pattern.len() <= text.len()
    &&& text.subrange(at, at + pattern.len()) == pattern
}

/// Whether `pattern` stands anywhere in `text`.
pub open spec fn contains(text: Seq<char>, pattern: Seq<char>) -> bool {
    exists|at: int| occurs_at(text, pattern, at)
}

/// The two-character placeholder `%` followed by `marker`.
pub open spec fn placeholder(marker: char) -> Seq<char> {
    seq!['%', marker]
}

/// `text` with every occurrence of the placeholder replaced by `value`,
/// taken from left to right without overlap.
pub open spec fn fill(text: Seq<char>, marker: char, value: Seq<char>) -> Seq<char>
    decreases text.len(),
{
    if text.len() == 0 {
        text
    } else if occurs_at(text, placeholder(marker), 0) {
        value + fill(text.subrange(2, text.len() as int), marker, value)
    } else {
        seq![text[0]] + fill(text.drop_first(), marker, value)
    }
}

/// A text without the placeholder is left as it is, whatever the value.
pub proof fn lemma_fill_without_placeholder(text: Seq<char>, marker: char, value: Seq<char>)
    requires
        !contains(text, placeholder(marker)),
    ensures
        fill(text, marker, value) == text,
    decreases text.len(),
{
    let p = placeholder(marker);
    if text.len() > 0 {
        assert(!occurs_at(text, p, 0));
        let rest = text.drop_first();
        assert forall|at: int| !occurs_at(rest, p, at) by {
            if occurs_at(rest, p, at) {
                assert(rest.subrange(at, at + p.len()) == text.subrange(at + 1, at + 1 + p.len()));
                assert(occurs_at(text, p, at + 1));
            }
        }
        lemma_fill_without_placeholder(rest, marker, value);
        assert(seq![text[0]] + rest == text);
    }
}

/// A text that is the placeholder alone after a prefix free of `%` becomes
/// the prefix followed by the value.
pub proof fn lemma_fill_trailing_placeholder(
    prefix: Seq<char>,
    marker: char,
    value: Seq<char>,
)
    requires
        forall|i: int| 0 <= i < prefix.len() ==> prefix[i] != '%',
    ensures
        fill(prefix + placeholder(marker), marker, value) == prefix + value,
    decreases prefix.len(),
{
    let p = placeholder(marker);
    let text = prefix + p;
    if prefix.len() == 0 {
        assert(text == p);
        assert(text.subrange(0, 2) == p);
        assert(occurs_at(text, p, 0));
        let tail = text.subrange(2, text.len() as int);
        assert(tail.len() == 0);
        assert(fill(tail, marker, value) == tail);
        assert(value + tail == prefix + value);
    } else {
        assert(text[0] == prefix[0]);
        assert(text.subrange(0, 2)[0] == text[0]);
        assert(p[0] == '%');
        assert(!occurs_at(text, p, 0));
        assert(text.drop_first() == prefix.drop_first() + p);
        lemma_fill_trailing_placeholder(prefix.drop_first(), marker, value);
        assert(seq![text[0]] + (prefix.drop_first() + value) == prefix + value);
    }
}

fn digit_text(d: u128) -> (s: &'static str)
    requires
        d < 10,
    ensures
        s@ == seq![digit(d as nat)],
{
    proof {
        reveal_strlit("0");
        reveal_strlit("1");
        reveal_strlit("2");
        reveal_strlit("3");
        reveal_strlit("4");
        reveal_strlit("5");
        reveal_strlit("6");
        reveal_strlit("7");
        reveal_strlit("8");
        reveal_strlit("9");
    }
    let s = if d == 0 {
        "0"
    } else if d == 1 {
        "1"
    } else if d == 2 {
        "2"
    } else if d == 3 {
        "3"
    } else if d == 4 {
        "4"
    } else if d == 5 {
        "5"
    } else if d == 6 {
        "6"
    } else if d == 7 {
        "7"
    } else if d == 8 {
        "8"
    } else {
        "9"
    };
    assert(s@ =~= seq![digit(d as nat)]);
    s
}

/// Appends the decimal numeral of `n` to `out`.
pub fn push_decimal(out: &mut String, n: u128)
    ensures
        final(out)@ == old(out)@ + decimal(n as nat),
    decreases n,
{
    if n < 10 {
        out.append(digit_text(n));
    } else {
        push_decimal(out, n / 10);
        out.append(digit_text(n % 10));
        assert(final(out)@ =~= old(out)@ + decimal(n as nat));
    }
}

/// The decimal numeral of `n`.
pub fn to_decimal(n: u128) -> (s: String)
    ensures
        s@ == decimal(n as nat),
{
    let mut s = String::new();
    push_decimal(&mut s, n);
    assert(s@ =~= decimal(n as nat));
    s
}

/// `template` with every `%` followed by `marker` replaced by `value`.
pub fn fill_placeholder(template: &str, marker: char, value: &str) -> (s: String)
    ensures
        s@ == fill(template@, marker, value@),
{
    let n: usize = template.unicode_len();
    let mut out = String::new();
    let mut i: usize = 0;
    proof {
        assert(template@.subrange(0, n as int) =~= template@);
        assert(out@ + fill(template@, marker, value@) =~= fill(template@, marker, value@));
    }
    while i < n
        invariant
            n == template@.len(),
            i <= n,
            out@ + fill(template@.subrange(i as int, n as int), marker, value@) == fill(
                template@,
                marker,
                value@,
            ),
        decreases n - i,
    {
        let ghost rest = template@.subrange(i as int, n as int);
        let ghost before = out@;
        let here: char = template.get_char(i);
        let matched: bool = here == '%' && i + 1 < n && template.get_char(i + 1) == marker;
        proof {
            assert(rest[0] == template@[i as int]);
            if i + 1 < n {
                assert(rest[1] == template@[i as int + 1]);
                assert(rest.subrange(0, 2)[0] == rest[0]);
                assert(rest.subrange(0, 2)[1] == rest[1]);
            }
            if matched {
                assert(rest.subrange(0, 2) =~= placeholder(marker));
            } else if occurs_at(rest, placeholder(marker), 0) {
                assert(placeholder(marker)[0] == '%');
                assert(placeholder(marker)[1] == marker);
            }
            assert(matched == occurs_at(rest, placeholder(marker), 0));
        }
        if matched {
            out.append(value);
            i = i + 2;
            proof {
                assert(rest.subrange(2, rest.len() as int) =~= template@.subrange(
                    i as int,
                    n as int,
                ));
                assert(out@ + fill(template@.subrange(i as int, n as int), marker, value@)
                    =~= before + fill(rest, marker, value@));
            }
        } else {
            out.append(template.substring_char(i, i + 1));
            i = i + 1;
            proof {
                assert(template@.subrange(i as int - 1, i as int) =~= seq![rest[0]]);
                assert(rest.drop_first() =~= template@.subrange(i as int, n as int));
                assert(out@ + fill(template@.subrange(i as int, n as int), marker, value@)
                    =~= before + fill(rest, marker, value@));
            }
        }
    }
    proof {
        assert(template@.subrange(n as int, n as int).len() == 0);
        assert(out@ =~= fill(template@, marker, value@));
    }
    out
}

} // verus!
