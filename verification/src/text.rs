//! Decimal numbers and whitespace-separated fields in text.

use vstd::prelude::*;
use vstd::string::StringExecFns;

verus! {

/// Whether `c` is white space (the Unicode `White_Space` property).
pub open spec fn is_space(c: char) -> bool {
    let u = c as u32;
    ||| 0x09 <= u <= 0x0d
    ||| u == 0x20
    ||| u == 0x85
    ||| u == 0xa0
    ||| u == 0x1680
    ||| 0x2000 <= u <= 0x200a
    ||| u == 0x2028
    ||| u == 0x2029
    ||| u == 0x202f
    ||| u == 0x205f
    ||| u == 0x3000
}

/// Whether `c` is one of the ASCII digits `0` to `9`.
pub open spec fn is_digit(c: char) -> bool {
    0x30 <= c as u32 <= 0x39
}

/// The value of the ASCII digit `c`.
pub open spec fn digit_value(c: char) -> nat {
    (c as u32 - 0x30) as nat
}

/// The ASCII digit that stands for `d`, for `d` below ten.
pub open spec fn digit_char(d: nat) -> char {
    if d == 0 {
        '0'
    } else if d == 1 {
        '1'
    } else if d == 2 {
        '2'
    } else if d == 3 {
        '3'
    } else if d == 4 {
        '4'
    } else if d == 5 {
        '5'
    } else if d == 6 {
        '6'
    } else if d == 7 {
        '7'
    } else if d == 8 {
        '8'
    } else {
        '9'
    }
}

/// The decimal representation of `n`: no sign, no leading zero except for
/// zero itself.
pub open spec fn spec_decimal(n: nat) -> Seq<char>
    decreases n,
{
    if n < 10 {
        seq![digit_char(n)]
    } else {
        spec_decimal(n / 10).push(digit_char(n % 10))
    }
}

/// The number that a sequence of digits stands for, read in base ten.
pub open spec fn digits_value(s: Seq<char>) -> nat
    decreases s.len(),
{
    if s.len() == 0 {
        0
    } else {
        digits_value(s.drop_last()) * 10 + digit_value(s.last())
    }
}

/// Whether every character of `s` is an ASCII digit.
pub open spec fn all_digits(s: Seq<char>) -> bool {
    forall|i: int| 0 <= i < s.len() ==> is_digit(#[trigger] s[i])
}

/// `s` without one leading plus sign, if it has one.
pub open spec fn unsigned_part(s: Seq<char>) -> Seq<char> {
    if s.len() > 0 && s[0] == '+' {
        s.drop_first()
    } else {
        s
    }
}

/// The unsigned integer that `s` spells: an optional `+`, then one or more
/// ASCII digits whose value fits a `usize`. Anything else spells no number.
pub open spec fn spec_number(s: Seq<char>) -> Option<usize> {
    let d = unsigned_part(s);
    if d.len() > 0 && all_digits(d) && digits_value(d) <= usize::MAX {
        Some(digits_value(d) as usize)
    } else {
        None
    }
}

/// Where the field that begins at or after `i` starts: the position of the
/// first character from `i` on that is not white space, or the length of `s`.
pub open spec fn field_start(s: Seq<char>, i: int) -> int
    decreases s.len() - i,
{
    if 0 <= i < s.len() && is_space(s[i]) {
        field_start(s, i + 1)
    } else {
        i
    }
}

/// Where the field that begins at `i` ends: the position of the first white
/// space character from `i` on, or the length of `s`.
pub open spec fn field_end(s: Seq<char>, i: int) -> int
    decreases s.len() - i,
{
    if 0 <= i < s.len() && !is_space(s[i]) {
        field_end(s, i + 1)
    } else {
        i
    }
}

/// A position that is reached from `i` over white space only, and that does
/// not hold white space itself, is the start of the field.
pub proof fn lemma_field_start_is(s: Seq<char>, i: int, j: int)
    requires
        0 <= i <= j <= s.len(),
        forall|k: int| i <= k < j ==> is_space(#[trigger] s[k]),
        j < s.len() ==> !is_space(s[j]),
    ensures
        field_start(s, i) == j,
    decreases j - i,
{
    if i < j {
        lemma_field_start_is(s, i + 1, j);
    }
}

/// A position that is reached from `i` over no white space, and that holds
/// white space itself, is the end of the field.
pub proof fn lemma_field_end_is(s: Seq<char>, i: int, j: int)
    requires
        0 <= i <= j <= s.len(),
        forall|k: int| i <= k < j ==> !is_space(#[trigger] s[k]),
        j < s.len() ==> is_space(s[j]),
    ensures
        field_end(s, i) == j,
    decreases j - i,
{
    if i < j {
        lemma_field_end_is(s, i + 1, j);
    }
}

/// Whether `c` is white space.
pub fn space(c: char) -> (b: bool)
    ensures
        b == is_space(c),
{
    let u: u32 = c as u32;
    (0x09 <= u && u <= 0x0d) || u == 0x20 || u == 0x85 || u == 0xa0 || u == 0x1680 || (0x2000 <= u
        && u <= 0x200a) || u == 0x2028 || u == 0x2029 || u == 0x202f || u == 0x205f || u == 0x3000
}

/// The position of the first character of `s` from `i` on that is not white
/// space.
pub fn skip_spaces(s: &Vec<char>, i: usize) -> (j: usize)
    requires
        i <= s@.len(),
    ensures
        j == field_start(s@, i as int),
        i <= j <= s@.len(),
        forall|k: int| i <= k < j ==> is_space(#[trigger] s@[k]),
        j < s@.len() ==> !is_space(s@[j as int]),
{
    let mut j: usize = i;
    while j < s.len() && space(s[j])
        invariant
            i <= j <= s@.len(),
            forall|k: int| i <= k < j ==> is_space(#[trigger] s@[k]),
        decreases s@.len() - j,
    {
        j = j + 1;
    }
    proof {
        lemma_field_start_is(s@, i as int, j as int);
    }
    j
}

/// The position of the first white space character of `s` from `i` on.
pub fn skip_field(s: &Vec<char>, i: usize) -> (j: usize)
    requires
        i <= s@.len(),
    ensures
        j == field_end(s@, i as int),
        i <= j <= s@.len(),
        forall|k: int| i <= k < j ==> !is_space(#[trigger] s@[k]),
        j < s@.len() ==> is_space(s@[j as int]),
{
    let mut j: usize = i;
    while j < s.len() && !space(s[j])
        invariant
            i <= j <= s@.len(),
            forall|k: int| i <= k < j ==> !is_space(#[trigger] s@[k]),
        decreases s@.len() - j,
    {
        j = j + 1;
    }
    proof {
        lemma_field_end_is(s@, i as int, j as int);
    }
    j
}

/// The characters of `s`, in order.
pub fn chars_of(s: &str) -> (v: Vec<char>)
    ensures
        v@ == s@,
{
    let mut v: Vec<char> = Vec::new();
    for c in it: s.chars()
        invariant
            it.seq() == s@,
            v@ == it.seq().take(it.index()),
    {
        v.push(c);
    }
    v
}

/// Reading one more digit multiplies the value by ten and adds the digit.
pub proof fn lemma_digits_value_push(s: Seq<char>, c: char)
    ensures
        digits_value(s.push(c)) == digits_value(s) * 10 + digit_value(c),
{
    assert(s.push(c).drop_last() =~= s);
}

/// The unsigned integer that the characters of `s` from `from` up to `to`
/// spell, if they spell one.
pub fn number(s: &Vec<char>, from: usize, to: usize) -> (r: Option<usize>)
    requires
        from <= to <= s@.len(),
    ensures
        r == spec_number(s@.subrange(from as int, to as int)),
{
    let ghost t = s@.subrange(from as int, to as int);
    let start: usize = if from < to && s[from] == '+' {
        from + 1
    } else {
        from
    };
    let ghost d = s@.subrange(start as int, to as int);
    assert(d =~= unsigned_part(t));
    if start == to {
        return None;
    }
    let mut i: usize = start;
    let mut value: usize = 0;
    let mut fits: bool = true;
    while i < to
        invariant
            from <= start <= i <= to <= s@.len(),
            d == s@.subrange(start as int, to as int),
            d == unsigned_part(s@.subrange(from as int, to as int)),
            all_digits(s@.subrange(start as int, i as int)),
            fits ==> value == digits_value(s@.subrange(start as int, i as int)),
            !fits ==> digits_value(s@.subrange(start as int, i as int)) > usize::MAX,
        decreases to - i,
    {
        let c: char = s[i];
        let u: u32 = c as u32;
        if !(0x30 <= u && u <= 0x39) {
            assert(d[i - start] == c);
            assert(!is_digit(c));
            return None;
        }
        let digit: usize = (u - 0x30) as usize;
        proof {
            let before = s@.subrange(start as int, i as int);
            assert(s@.subrange(start as int, i + 1) =~= before.push(c));
            lemma_digits_value_push(before, c);
        }
        if fits {
            match value.checked_mul(10) {
                Some(shifted) => match shifted.checked_add(digit) {
                    Some(sum) => {
                        value = sum;
                    },
                    None => {
                        fits = false;
                    },
                },
                None => {
                    fits = false;
                },
            }
        }
        i = i + 1;
    }
    assert(s@.subrange(start as int, i as int) =~= d);
    if fits {
        Some(value)
    } else {
        None
    }
}

/// The one-character text of the digit `d`.
fn digit_text(d: usize) -> (s: &'static str)
    requires
        d < 10,
    ensures
        s@ == seq![digit_char(d as nat)],
{
    proof {
        reveal_strlit("0");
        reveal_strlit("1");
        reveal_strlit("2");
        reveal_strlit("3");
        reveal_strlit("4");
        reveal_strlit("5");
        reveal_strlit("6");
        reveal_strlit("7");
        reveal_strlit("8");
        reveal_strlit("9");
    }
    let s = if d == 0 {
        "0"
    } else if d == 1 {
        "1"
    } else if d == 2 {
        "2"
    } else if d == 3 {
        "3"
    } else if d == 4 {
        "4"
    } else if d == 5 {
        "5"
    } else if d == 6 {
        "6"
    } else if d == 7 {
        "7"
    } else if d == 8 {
        "8"
    } else {
        "9"
    };
    assert(s@ =~= seq![digit_char(d as nat)]);
    s
}

/// The decimal representation of `n`.
pub fn decimal(n: usize) -> (s: String)
    ensures
        s@ == spec_decimal(n as nat),
    decreases n,
{
    if n < 10 {
        String::from_str(digit_text(n))
    } else {
        let mut s = decimal(n / 10);
        s.append(digit_text(n % 10));
        assert(s@ =~= spec_decimal(n as nat));
        s
    }
}

/// A decimal representation holds digits only, at least one, and stands for
/// the number it was made from.
pub proof fn lemma_decimal_digits(n: nat)
    ensures
        spec_decimal(n).len() >= 1,
        all_digits(spec_decimal(n)),
        digits_value(spec_decimal(n)) == n,
    decreases n,
{
    if n < 10 {
        let s = seq![digit_char(n)];
        assert(s.drop_last() =~= Seq::<char>::empty());
        assert(digits_value(s.drop_last()) == 0);
    } else {
        lemma_decimal_digits(n / 10);
        lemma_digits_value_push(spec_decimal(n / 10), digit_char(n % 10));
    }
}

/// Printing a number and reading it back gives the number.
pub proof fn lemma_decimal_round_trip(n: usize)
    ensures
        spec_number(spec_decimal(n as nat)) == Some(n),
{
    lemma_decimal_digits(n as nat);
    let s = spec_decimal(n as nat);
    assert(is_digit(s[0]));
}

/// The texts of a list of strings.
pub open spec fn texts(list: Seq<String>) -> Seq<Seq<char>> {
    Seq::new(list.len(), |i: int| list[i]@)
}

/// Appends the text `s` to `list`.
pub fn push_text(list: &mut Vec<String>, s: &str)
    ensures
        texts(final(list)@) == texts(old(list)@).push(s@),
{
    list.push(String::from_str(s));
    assert(texts(list@) =~= texts(old(list)@).push(s@));
}

/// Appends the string `s` to `list`.
pub fn push_string(list: &mut Vec<String>, s: String)
    ensures
        texts(final(list)@) == texts(old(list)@).push(s@),
{
    list.push(s);
    assert(texts(list@) =~= texts(old(list)@).push(s@));
}

} // verus!
