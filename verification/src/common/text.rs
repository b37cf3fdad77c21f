//! String helpers with exact contracts over `Seq<char>` views.

use vstd::prelude::*;
use vstd::string::StringSliceAdditionalSpecFns;

verus! {

/// `needle` occurs in `hay` as a contiguous run of characters.
pub open spec fn contains_substring(hay: Seq<char>, needle: Seq<char>) -> bool {
    exists|i: int|
        0 <= i && i + needle.len() <= hay.len() && #[trigger] hay.subrange(
            i,
            i + needle.len(),
        ) == needle
}

/// The character that stands for the digit `d` (`0 <= d < 10`).
pub open spec fn digit_char(d: nat) -> char {
    if d == 0 {
        '0'
    } else if d == 1 {
        '1'
    } else if d == 2 {
        '2'
    } else if d == 3 {
        '3'
    } else if d == 4 {
        '4'
    } else if d == 5 {
        '5'
    } else if d == 6 {
        '6'
    } else if d == 7 {
        '7'
    } else if d == 8 {
        '8'
    } else {
        '9'
    }
}

/// The decimal numeral of `n`, without sign or leading zeros.
pub open spec fn decimal(n: nat) -> Seq<char>
    decreases n,
{
    if n < 10 {
        seq![digit_char(n)]
    } else {
        decimal(n / 10).push(digit_char(n % 10))
    }
}

/// The items of `parts` written one after another with `sep` between
/// neighbours.
pub open spec fn joined(parts: Seq<Seq<char>>, sep: Seq<char>) -> Seq<char>
    decreases parts.len(),
{
    if parts.len() == 0 {
        Seq::<char>::empty()
    } else if parts.len() == 1 {
        parts[0]
    } else {
        joined(parts.drop_last(), sep) + sep + parts.last()
    }
}

/// The views of the strings of a vector, in order.
pub open spec fn views(v: Seq<String>) -> Seq<Seq<char>> {
    Seq::new(v.len(), |i: int| v[i]@)
}

/// `a` comes before `b`, or is `b`, in the order of the dictionary by
/// code point.
pub open spec fn lex_le(a: Seq<char>, b: Seq<char>) -> bool
    decreases a.len(),
{
    if a.len() == 0 {
        true
    } else if b.len() == 0 {
        false
    } else if a[0] != b[0] {
        (a[0] as u32) < (b[0] as u32)
    } else {
        lex_le(a.drop_first(), b.drop_first())
    }
}

/// Every text is at or before itself.
pub proof fn lemma_lex_le_reflexive(a: Seq<char>)
    ensures
        lex_le(a, a),
    decreases a.len(),
{
    if a.len() > 0 {
        lemma_lex_le_reflexive(a.drop_first());
    }
}

/// What is at or before a text that is at or before a third is at or
/// before the third.
pub proof fn lemma_lex_le_transitive(a: Seq<char>, b: Seq<char>, c: Seq<char>)
    requires
        lex_le(a, b),
        lex_le(b, c),
    ensures
        lex_le(a, c),
    decreases a.len(),
{
    if a.len() > 0 {
        if a[0] == b[0] && b[0] == c[0] {
            lemma_lex_le_transitive(a.drop_first(), b.drop_first(), c.drop_first());
        }
    }
}

/// Specifies `<=` on string slices: std orders strings by their bytes,
/// which on UTF-8 is the order of the dictionary by code point.
#[verifier::external_body]
pub(crate) fn str_le(a: &str, b: &str) -> (le: bool)
    ensures
        le == lex_le(a@, b@),
{
    a <= b
}

/// The later of `now` and `floor`.
pub fn later_of(now: String, floor: &str) -> (text: String)
    ensures
        text@ == (if lex_le(floor@, now@) {
            now@
        } else {
            floor@
        }),
        lex_le(floor@, text@),
{
    if str_le(floor, now.as_str()) {
        now
    } else {
        proof {
            lemma_lex_le_reflexive(floor@);
        }
        String::from_str(floor)
    }
}

/// Specifies `str::contains` with a string pattern: the pattern occurs as a
/// substring. Matching is by bytes; on valid UTF-8 that is matching by
/// characters.
#[verifier::external_body]
pub(crate) fn str_contains(hay: &str, needle: &str) -> (found: bool)
    ensures
        found == contains_substring(hay@, needle@),
{
    hay.contains(needle)
}

/// Specifies `str::starts_with` with a string pattern: the pattern is a
/// prefix of the string.
#[verifier::external_body]
pub(crate) fn str_starts_with(text: &str, prefix: &str) -> (found: bool)
    ensures
        found == prefix@.is_prefix_of(text@),
{
    text.starts_with(prefix)
}

/// Whether two string slices hold the same characters. The bytes are
/// compared; two texts have the same encoding exactly when they are the
/// same text.
pub fn str_equal(a: &str, b: &str) -> (same: bool)
    ensures
        same == (a@ == b@),
{
    let x = a.as_bytes();
    let y = b.as_bytes();
    proof {
        vstd::utf8::encode_utf8_decode_utf8(a@);
        vstd::utf8::encode_utf8_decode_utf8(b@);
    }
    if x.len() != y.len() {
        return false;
    }
    let mut i: usize = 0;
    while i < x.len()
        invariant
            i <= x.len(),
            x@ == a.spec_bytes(),
            y@ == b.spec_bytes(),
            x@.len() == y@.len(),
            forall|j: int| 0 <= j < i ==> x@[j] == y@[j],
        decreases x.len() - i,
    {
        if x[i] != y[i] {
            proof {
                assert(x@[i as int] != y@[i as int]);
            }
            return false;
        }
        i = i + 1;
    }
    proof {
        assert(x@ =~= y@);
    }
    true
}

/// `a`, `b` and `c` written one after another.
pub fn concat3(a: &str, b: &str, c: &str) -> (text: String)
    ensures
        text@ == a@ + b@ + c@,
{
    String::from_str(a).concat(b).concat(c)
}

/// `a`, `b`, `c`, `d` and `e` written one after another.
pub fn concat5(a: &str, b: &str, c: &str, d: &str, e: &str) -> (text: String)
    ensures
        text@ == a@ + b@ + c@ + d@ + e@,
{
    String::from_str(a).concat(b).concat(c).concat(d).concat(e)
}

/// The vector that holds `a` alone.
pub fn one_string(a: String) -> (v: Vec<String>)
    ensures
        views(v@) == seq![a@],
{
    let mut v: Vec<String> = Vec::new();
    v.push(a);
    assert(views(v@) =~= seq![a@]);
    v
}

/// The vector that holds `a`, then `b`.
pub fn two_strings(a: String, b: String) -> (v: Vec<String>)
    ensures
        views(v@) == seq![a@, b@],
{
    let mut v: Vec<String> = Vec::new();
    v.push(a);
    v.push(b);
    assert(views(v@) =~= seq![a@, b@]);
    v
}

/// Appends a copy of `text` to `list`.
pub fn push_text(list: &mut Vec<String>, text: &str)
    ensures
        views(final(list)@) == views(old(list)@).push(text@),
{
    list.push(String::from_str(text));
    assert(views(list@) =~= views(old(list)@).push(text@));
}

/// Appends copies of the strings of `items` to `list`, in order.
pub fn push_texts(list: &mut Vec<String>, items: &Vec<String>)
    ensures
        views(final(list)@) == views(old(list)@) + views(items@),
{
    let ghost before = views(list@);
    let mut i: usize = 0;
    proof {
        assert(views(list@) =~= before + views(items@).take(0));
    }
    while i < items.len()
        invariant
            i <= items.len(),
            views(list@) == before + views(items@).take(i as int),
        decreases items.len() - i,
    {
        push_text(list, items[i].as_str());
        proof {
            assert(views(list@) =~= before + views(items@).take(i + 1));
        }
        i = i + 1;
    }
    proof {
        assert(views(items@).take(items.len() as int) =~= views(items@));
    }
}

/// A copy of a vector of strings.
pub fn copy_strings(v: &Vec<String>) -> (copy: Vec<String>)
    ensures
        views(copy@) == views(v@),
{
    let mut copy: Vec<String> = Vec::new();
    let mut i: usize = 0;
    while i < v.len()
        invariant
            i <= v.len(),
            copy@.len() == i,
            forall|j: int| 0 <= j < i ==> copy@[j]@ == v@[j]@,
        decreases v.len() - i,
    {
        copy.push(v[i].clone());
        i = i + 1;
    }
    assert(views(copy@) =~= views(v@));
    copy
}

fn digit_text(d: u64) -> (text: &'static str)
    requires
        d < 10,
    ensures
        text@ == seq![digit_char(d as nat)],
{
    proof {
        reveal_strlit("0");
        reveal_strlit("1");
        reveal_strlit("2");
        reveal_strlit("3");
        reveal_strlit("4");
        reveal_strlit("5");
        reveal_strlit("6");
        reveal_strlit("7");
        reveal_strlit("8");
        reveal_strlit("9");
    }
    let text = if d == 0 {
        "0"
    } else if d == 1 {
        "1"
    } else if d == 2 {
        "2"
    } else if d == 3 {
        "3"
    } else if d == 4 {
        "4"
    } else if d == 5 {
        "5"
    } else if d == 6 {
        "6"
    } else if d == 7 {
        "7"
    } else if d == 8 {
        "8"
    } else {
        "9"
    };
    assert(text@ =~= seq![digit_char(d as nat)]);
    text
}

/// Writes `n` in decimal.
pub fn decimal_string(n: u64) -> (text: String)
    ensures
        text@ == decimal(n as nat),
    decreases n,
{
    if n < 10 {
        String::from_str(digit_text(n))
    } else {
        let head = decimal_string(n / 10);
        let text = head.concat(digit_text(n % 10));
        assert(text@ =~= decimal(n as nat));
        text
    }
}

/// Joins the strings of `parts` with `sep` between neighbours.
pub fn join_strings(parts: &Vec<String>, sep: &str) -> (text: String)
    ensures
        text@ == joined(views(parts@), sep@),
{
    let mut text = String::new();
    let mut i: usize = 0;
    while i < parts.len()
        invariant
            i <= parts.len(),
            text@ == joined(views(parts@).take(i as int), sep@),
        decreases parts.len() - i,
    {
        let ghost before = views(parts@).take(i as int);
        let ghost after = views(parts@).take(i + 1);
        proof {
            assert(after.drop_last() =~= before);
            assert(after.last() == parts@[i as int]@);
        }
        if i > 0 {
            text.append(sep);
        }
        text.append(parts[i].as_str());
        proof {
            if i == 0 {
                assert(before.len() == 0);
                assert(text@ =~= parts@[0]@);
            }
        }
        i = i + 1;
    }
    proof {
        assert(views(parts@).take(parts.len() as int) =~= views(parts@));
    }
    text
}

} // verus!
