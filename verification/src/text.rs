//! Text primitives shared by the matchers and the engine.

use vstd::prelude::*;
use vstd::string::StringExecFns;

verus! {

/// `String::push` appends one character and leaves what was there in place.
pub assume_specification[ String::push ](s: &mut String, ch: char)
    ensures
        final(s)@ == old(s)@.push(ch),
;

/// Model of an optional string.
pub open spec fn opt_view(s: Option<String>) -> Option<Seq<char>> {
    match s {
        Some(t) => Some(t@),
        None => None,
    }
}

/// A copy of an optional string.
pub fn clone_opt(s: &Option<String>) -> (c: Option<String>)
    ensures
        opt_view(c) == opt_view(*s),
{
    match s {
        Some(t) => Some(t.clone()),
        None => None,
    }
}

/// Model of a list of strings.
pub open spec fn strings_view(v: Seq<String>) -> Seq<Seq<char>> {
    v.map_values(|s: String| s@)
}

/// The words of a list written one after another, with `sep` between each
/// two.
pub open spec fn join(words: Seq<Seq<char>>, sep: Seq<char>) -> Seq<char>
    decreases words.len(),
{
    if words.len() == 0 {
        Seq::empty()
    } else if words.len() == 1 {
        words[0]
    } else {
        join(words.drop_last(), sep) + sep + words.last()
    }
}

/// Writes the strings of a list one after another, with `sep` between each
/// two.
pub fn join_strings(words: &Vec<String>, sep: &str) -> (out: String)
    ensures
        out@ == join(strings_view(words@), sep@),
{
    let mut out = String::new();
    let ghost all = strings_view(words@);
    let mut i: usize = 0;
    while i < words.len()
        invariant
            i <= words.len(),
            all == strings_view(words@),
            out@ == join(all.take(i as int), sep@),
        decreases words.len() - i,
    {
        if i > 0 {
            out.append(sep);
        }
        out.append(words[i].as_str());
        proof {
            let next = all.take(i + 1);
            assert(next.drop_last() =~= all.take(i as int));
            assert(next.last() == words@[i as int]@);
            if i == 0 {
                assert(out@ =~= next[0]);
            }
        }
        i = i + 1;
    }
    assert(all.take(i as int) =~= all);
    out
}

/// The character that writes the decimal digit `d`.
pub open spec fn digit_char(d: int) -> char {
    if d == 0 {
        '0'
    } else if d == 1 {
        '1'
    } else if d == 2 {
        '2'
    } else if d == 3 {
        '3'
    } else if d == 4 {
        '4'
    } else if d == 5 {
        '5'
    } else if d == 6 {
        '6'
    } else if d == 7 {
        '7'
    } else if d == 8 {
        '8'
    } else {
        '9'
    }
}

/// Decimal digits of a natural number, most significant first, without
/// leading zeros.
pub open spec fn decimal_nat(n: nat) -> Seq<char>
    decreases n,
{
    if n < 10 {
        seq![digit_char(n as int)]
    } else {
        decimal_nat(n / 10).push(digit_char((n % 10) as int))
    }
}

/// Decimal rendering of an integer: a minus sign for a negative number, then
/// the digits of its magnitude.
pub open spec fn decimal(i: int) -> Seq<char> {
    if i < 0 {
        seq!['-'] + decimal_nat((-i) as nat)
    } else {
        decimal_nat(i as nat)
    }
}

fn digit_of(d: u32) -> (c: char)
    requires
        d < 10,
    ensures
        c == digit_char(d as int),
{
    match d {
        0 => '0',
        1 => '1',
        2 => '2',
        3 => '3',
        4 => '4',
        5 => '5',
        6 => '6',
        7 => '7',
        8 => '8',
        _ => '9',
    }
}

fn push_decimal(out: &mut String, n: u32)
    ensures
        final(out)@ == old(out)@ + decimal_nat(n as nat),
    decreases n,
{
    if n >= 10 {
        push_decimal(out, n / 10);
    }
    out.push(digit_of(n % 10));
}

/// Writes an identifier in decimal, as the backend expects it.
pub fn id_to_string(id: i32) -> (s: String)
    ensures
        s@ == decimal(id as int),
{
    let mut out = String::new();
    if id < 0 {
        out.push('-');
        let magnitude: u32 = if id == i32::MIN {
            2147483648u32
        } else {
            (-id) as u32
        };
        push_decimal(&mut out, magnitude);
    } else {
        push_decimal(&mut out, id as u32);
    }
    out
}

/// The characters of a string, in order.
pub fn chars_of(s: &str) -> (v: Vec<char>)
    ensures
        v@ == s@,
{
    let mut v: Vec<char> = Vec::new();
    for c in it: s.chars()
        invariant
            it.seq() == s@,
            v@ == it.seq().take(it.index() as int),
    {
        v.push(c);
        assert(it.seq().take(it.index() + 1) =~= it.seq().take(it.index() as int).push(c));
    }
    assert(s@.take(s@.len() as int) =~= s@);
    v
}

/// The lowercase form that `str::to_lowercase` gives to a text.
pub uninterp spec fn lowercase(s: Seq<char>) -> Seq<char>;

/// Whether `char::is_alphanumeric` counts a character as a letter or a
/// number.
pub uninterp spec fn alphanumeric(c: char) -> bool;

/// Whether `char::is_whitespace` counts a character as white space.
pub uninterp spec fn whitespace(c: char) -> bool;

/// `str::to_lowercase` depends on the text alone; its result is [`lowercase`]
/// of the text.
pub assume_specification[ str::to_lowercase ](s: &str) -> (r: String)
    ensures
        r@ == lowercase(s@),
;

/// `char::is_alphanumeric` depends on the character alone; its result is
/// [`alphanumeric`] of the character.
pub assume_specification[ char::is_alphanumeric ](c: char) -> (r: bool)
    ensures
        r == alphanumeric(c),
;

/// `char::is_whitespace` depends on the character alone; its result is
/// [`whitespace`] of the character.
pub assume_specification[ char::is_whitespace ](c: char) -> (r: bool)
    ensures
        r == whitespace(c),
;

/// A text without the white space it begins with.
pub open spec fn trim_start(s: Seq<char>) -> Seq<char>
    decreases s.len(),
{
    if s.len() > 0 && whitespace(s[0]) {
        trim_start(s.drop_first())
    } else {
        s
    }
}

/// A text without the white space it ends with.
pub open spec fn trim_end(s: Seq<char>) -> Seq<char>
    decreases s.len(),
{
    if s.len() > 0 && whitespace(s.last()) {
        trim_end(s.drop_last())
    } else {
        s
    }
}

/// A text without the white space around it.
pub open spec fn trimmed(s: Seq<char>) -> Seq<char> {
    trim_end(trim_start(s))
}

/// `str::trim` returns the text without its leading and trailing white
/// space, white space being what `char::is_whitespace` counts as such.
pub assume_specification[ str::trim ](s: &str) -> (r: &str)
    ensures
        r@ == trimmed(s@),
;

/// Whether `needle` stands somewhere in `hay`, character for character.
pub open spec fn occurs_in(needle: Seq<char>, hay: Seq<char>) -> bool {
    exists|i: int|
        0 <= i <= hay.len() - needle.len() && #[trigger] hay.subrange(i, i + needle.len())
            == needle
}

/// `str::contains` with a text as its pattern: whether the pattern matches a
/// part of the text.
#[verifier::external_body]
pub(crate) fn contains_text(hay: &str, needle: &str) -> (found: bool)
    ensures
        found == occurs_in(needle@, hay@),
{
    hay.contains(needle)
}

/// The characters that a normalized text keeps: letters, numbers and white
/// space.
pub open spec fn keeps(c: char) -> bool {
    alphanumeric(c) || whitespace(c)
}

/// A text without the characters that are neither letter, number nor white
/// space.
pub open spec fn kept(s: Seq<char>) -> Seq<char>
    decreases s.len(),
{
    if s.len() == 0 {
        s
    } else if keeps(s.last()) {
        kept(s.drop_last()).push(s.last())
    } else {
        kept(s.drop_last())
    }
}

/// The words of a text: its maximal runs of characters that are no white
/// space, in order.
pub open spec fn words_of(s: Seq<char>) -> Seq<Seq<char>>
    decreases s.len(),
{
    if s.len() == 0 {
        Seq::empty()
    } else {
        let before = words_of(s.drop_last());
        if whitespace(s.last()) {
            before
        } else if s.len() >= 2 && !whitespace(s[s.len() - 2]) && before.len() > 0 {
            before.drop_last().push(before.last().push(s.last()))
        } else {
            before.push(seq![s.last()])
        }
    }
}

/// Drops the characters that are neither letter, number nor white space.
pub fn keep_plain(chars: &Vec<char>) -> (out: Vec<char>)
    ensures
        out@ == kept(chars@),
{
    let mut out: Vec<char> = Vec::new();
    let mut i: usize = 0;
    while i < chars.len()
        invariant
            i <= chars.len(),
            out@ == kept(chars@.take(i as int)),
        decreases chars.len() - i,
    {
        let c = chars[i];
        proof {
            assert(chars@.take(i + 1).drop_last() =~= chars@.take(i as int));
        }
        if c.is_alphanumeric() || c.is_whitespace() {
            out.push(c);
        }
        i = i + 1;
    }
    assert(chars@.take(i as int) =~= chars@);
    out
}

/// Splits a text at its white space.
pub fn split_words(chars: &Vec<char>) -> (words: Vec<String>)
    ensures
        strings_view(words@) == words_of(chars@),
{
    let mut words: Vec<String> = Vec::new();
    let mut current = String::new();
    let mut in_word = false;
    let mut i: usize = 0;
    assert(strings_view(words@) =~= Seq::empty());
    while i < chars.len()
        invariant
            i <= chars.len(),
            in_word == (i > 0 && !whitespace(chars@[i - 1])),
            in_word ==> words_of(chars@.take(i as int)) == strings_view(words@).push(current@),
            !in_word ==> words_of(chars@.take(i as int)) == strings_view(words@),
            !in_word ==> current@.len() == 0,
        decreases chars.len() - i,
    {
        let c = chars[i];
        proof {
            assert(chars@.take(i + 1).drop_last() =~= chars@.take(i as int));
            assert(chars@.take(i + 1).last() == c);
            if i > 0 {
                assert(chars@.take(i + 1)[i - 1] == chars@[i - 1]);
            }
        }
        if c.is_whitespace() {
            if in_word {
                let ghost before = strings_view(words@);
                words.push(current);
                assert(strings_view(words@) =~= before.push(current@));
                current = String::new();
            }
            in_word = false;
        } else {
            let ghost word = current@;
            current.push(c);
            proof {
                let before = words_of(chars@.take(i as int));
                if in_word {
                    assert(before.drop_last() =~= strings_view(words@));
                    assert(before.last() == word);
                } else {
                    assert(current@ =~= seq![c]);
                }
            }
            in_word = true;
        }
        i = i + 1;
    }
    assert(chars@.take(i as int) =~= chars@);
    if in_word {
        let ghost before = strings_view(words@);
        words.push(current);
        assert(strings_view(words@) =~= before.push(current@));
    }
    words
}

/// A decimal rendering ends in a digit.
pub proof fn lemma_decimal_ends_in_digit(i: int)
    ensures
        decimal(i).len() > 0,
        exists|d: int| 0 <= d <= 9 && decimal(i).last() == #[trigger] digit_char(d),
{
    let n: nat = if i < 0 {
        (-i) as nat
    } else {
        i as nat
    };
    assert(decimal_nat(n).len() > 0 && decimal_nat(n).last() == digit_char((n % 10) as int)) by {
        if n >= 10 {
            assert(decimal_nat(n) == decimal_nat(n / 10).push(digit_char((n % 10) as int)));
        }
    }
    if i < 0 {
        assert(decimal(i).last() == decimal_nat(n).last());
    }
    assert(decimal(i).last() == digit_char((n % 10) as int));
}

/// Tells whether a text begins with another.
pub fn has_prefix(s: &str, prefix: &str) -> (found: bool)
    ensures
        found == prefix@.is_prefix_of(s@),
{
    let text = chars_of(s);
    let head = chars_of(prefix);
    if head.len() > text.len() {
        return false;
    }
    let mut i: usize = 0;
    while i < head.len()
        invariant
            i <= head.len() <= text.len(),
            text@ == s@,
            head@ == prefix@,
            forall|j: int| 0 <= j < i ==> text@[j] == head@[j],
        decreases head.len() - i,
    {
        if text[i] != head[i] {
            proof {
                if head@.is_prefix_of(text@) {
                    assert(head@[i as int] == text@.subrange(0, head@.len() as int)[i as int]);
                }
            }
            return false;
        }
        i = i + 1;
    }
    assert(head@ =~= text@.subrange(0, head@.len() as int));
    true
}

/// Tells whether a text ends with another.
pub fn has_suffix(s: &str, suffix: &str) -> (found: bool)
    ensures
        found == suffix@.is_suffix_of(s@),
{
    let text = chars_of(s);
    let tail = chars_of(suffix);
    if tail.len() > text.len() {
        return false;
    }
    let start = text.len() - tail.len();
    let mut i: usize = 0;
    while i < tail.len()
        invariant
            i <= tail.len() <= text.len(),
            text@ == s@,
            tail@ == suffix@,
            start == text.len() - tail.len(),
            forall|j: int| 0 <= j < i ==> text@[start + j] == tail@[j],
        decreases tail.len() - i,
    {
        if text[start + i] != tail[i] {
            proof {
                if tail@.is_suffix_of(text@) {
                    assert(tail@[i as int] == text@.subrange(
                        start as int,
                        text@.len() as int,
                    )[i as int]);
                }
            }
            return false;
        }
        i = i + 1;
    }
    assert(tail@ =~= text@.subrange(start as int, text@.len() as int));
    true
}

} // verus!
