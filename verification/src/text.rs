//! Sequences of characters: where a marker stands in a text, what is in front
//! of it and behind it, and the small rewritings that the rest of the crate
//! needs (dropping characters, trimming blanks, decimal numerals).

use vstd::prelude::*;
use vstd::string::*;

verus! {

/// `marker` stands in `text` at index `at`.
pub open spec fn occurs_at(text: Seq<char>, marker: Seq<char>, at: int) -> bool {
    &&& 0 <= at
    &&& at + marker.len() <= text.len()
    &&& text.subrange(at, at + marker.len()) == marker
}

/// `marker` stands somewhere in `text`.
pub open spec fn occurs(text: Seq<char>, marker: Seq<char>) -> bool {
    exists|at: int| occurs_at(text, marker, at)
}

/// `at` is the first index of `text` at which `marker` stands.
pub open spec fn first_at(text: Seq<char>, marker: Seq<char>, at: int) -> bool {
    &&& occurs_at(text, marker, at)
    &&& forall|earlier: int| 0 <= earlier < at ==> !occurs_at(text, marker, earlier)
}

/// The first index of `text` at which `marker` stands, where it stands at all.
pub open spec fn first_index(text: Seq<char>, marker: Seq<char>) -> int {
    choose|at: int| first_at(text, marker, at)
}

/// What `text` holds in front of the first `marker`.
pub open spec fn before_marker(text: Seq<char>, marker: Seq<char>) -> Seq<char> {
    text.take(first_index(text, marker))
}

/// What `text` holds behind the first `marker`.
pub open spec fn after_marker(text: Seq<char>, marker: Seq<char>) -> Seq<char> {
    text.skip(first_index(text, marker) + marker.len())
}

/// A marker has one first place only.
pub proof fn lemma_first_at_unique(text: Seq<char>, marker: Seq<char>, a: int, b: int)
    requires
        first_at(text, marker, a),
        first_at(text, marker, b),
    ensures
        a == b,
{
}

/// Once the first place of a marker is known, so are the two parts around it.
pub proof fn lemma_first_index(text: Seq<char>, marker: Seq<char>, at: int)
    requires
        first_at(text, marker, at),
    ensures
        occurs(text, marker),
        first_index(text, marker) == at,
        before_marker(text, marker) == text.take(at),
        after_marker(text, marker) == text.skip(at + marker.len()),
        text == before_marker(text, marker) + marker + after_marker(text, marker),
{
    lemma_first_at_unique(text, marker, at, first_index(text, marker));
    assert(text =~= text.take(at) + marker + text.skip(at + marker.len()));
}

/// A marker that stands somewhere has a first place, and it is not behind
/// any place at which it stands.
pub proof fn lemma_first_exists(text: Seq<char>, marker: Seq<char>, at: int)
    requires
        occurs_at(text, marker, at),
    ensures
        occurs(text, marker),
        first_at(text, marker, first_index(text, marker)),
        first_index(text, marker) <= at,
    decreases at,
{
    if exists|earlier: int| 0 <= earlier < at && occurs_at(text, marker, earlier) {
        let earlier = choose|earlier: int| 0 <= earlier < at && occurs_at(text, marker, earlier);
        lemma_first_exists(text, marker, earlier);
    } else {
        assert(first_at(text, marker, at));
    }
}

/// A marker that stands in `text` behind the first `skipped` characters
/// stands in what is left when they are taken away, as far to the front as
/// they were long.
pub proof fn lemma_occurs_behind(text: Seq<char>, marker: Seq<char>, skipped: int, at: int)
    requires
        0 <= skipped <= at,
        occurs_at(text, marker, at),
    ensures
        occurs_at(text.skip(skipped), marker, at - skipped),
{
    assert(text.skip(skipped).subrange(at - skipped, at - skipped + marker.len()) =~= text.subrange(
        at,
        at + marker.len(),
    ));
}

/// A marker that stands in what is left of `text` without its first
/// `skipped` characters stands in `text`, as far to the back as they were
/// long.
pub proof fn lemma_occurs_in_front(text: Seq<char>, marker: Seq<char>, skipped: int, at: int)
    requires
        0 <= skipped <= text.len(),
        occurs_at(text.skip(skipped), marker, at),
    ensures
        occurs_at(text, marker, at + skipped),
{
    assert(text.skip(skipped).subrange(at, at + marker.len()) =~= text.subrange(
        at + skipped,
        at + skipped + marker.len(),
    ));
}

/// Splits `text` in front of the first place where `marker` stands.
///
/// Calls `nom::bytes::complete::take_until`, which looks the marker up with
/// `str::find` and splits the input at the index found. The contract claims
/// that the two parts make up `text`, that the second begins at the first
/// occurrence of `marker`, and that nothing comes back exactly when `marker`
/// stands nowhere in `text`.
#[verifier::external_body]
pub(crate) fn take_until<'a>(marker: &str, text: &'a str) -> (found: Option<(&'a str, &'a str)>)
    ensures
        found is None <==> !occurs(text@, marker@),
        found matches Some((rest, taken)) ==> taken@ + rest@ == text@ && first_at(
            text@,
            marker@,
            taken@.len() as int,
        ),
{
    let parsed: nom::IResult<&'a str, &'a str> = nom::bytes::complete::take_until(marker)(text);
    parsed.ok()
}

/// Splits `text` around the first `marker`: what stands in front of it and
/// what stands behind it, or nothing where the marker is absent.
pub fn split_at_marker<'a>(marker: &str, text: &'a str) -> (parts: Option<(&'a str, &'a str)>)
    ensures
        parts is None <==> !occurs(text@, marker@),
        parts matches Some((before, after)) ==> {
            &&& first_at(text@, marker@, before@.len() as int)
            &&& before@ == before_marker(text@, marker@)
            &&& after@ == after_marker(text@, marker@)
        },
{
    match take_until(marker, text) {
        None => None,
        Some((rest, taken)) => {
            proof {
                lemma_first_index(text@, marker@, taken@.len() as int);
                assert(rest@ =~= text@.skip(taken@.len() as int));
                assert(taken@ =~= text@.take(taken@.len() as int));
            }
            let skip = marker.unicode_len();
            let end = rest.unicode_len();
            let after = rest.substring_char(skip, end);
            proof {
                assert(after@ =~= text@.skip((taken@.len() + marker@.len()) as int));
            }
            Some((taken, after))
        },
    }
}

/// `String::push` puts one character behind those that the string holds.
pub assume_specification[ String::push ](text: &mut String, ch: char)
    ensures
        final(text)@ == old(text)@.push(ch),
;

/// A text as `Debug` shows it: between double quotes, with escapes for the
/// characters that would not show as themselves.
pub uninterp spec fn debug_text(text: Seq<char>) -> Seq<char>;

/// `text` as `Debug` shows it.
///
/// Formats the text with `{:?}`, that is with the `Debug` impl of `str`. The
/// contract gives the outcome the name `debug_text`: it depends on the text
/// alone.
#[verifier::external_body]
pub(crate) fn quoted(text: &str) -> (shown: String)
    ensures
        shown@ == debug_text(text@),
{
    format!("{:?}", text)
}

/// The characters of `text`, one by one.
pub fn chars_of(text: &str) -> (chars: Vec<char>)
    ensures
        chars@ == text@,
{
    broadcast use vstd::string::group_string_axioms;

    let mut chars: Vec<char> = Vec::new();
    for c in it: text.chars()
        invariant
            it.seq() == text@,
            chars@ == it.seq().take(it.index() as int),
    {
        chars.push(c);
    }
    chars
}

/// The string that holds `chars`, one by one.
pub fn string_of(chars: &Vec<char>) -> (text: String)
    ensures
        text@ == chars@,
{
    let mut text = String::new();
    let mut i: usize = 0;
    while i < chars.len()
        invariant
            i <= chars.len(),
            text@ == chars@.take(i as int),
        decreases chars.len() - i,
    {
        text.push(chars[i]);
        i = i + 1;
        assert(chars@.take(i as int) =~= chars@.take(i - 1).push(chars@[i - 1]));
    }
    assert(chars@.take(chars.len() as int) =~= chars@);
    text
}

/// `text` without the characters that `unwanted` lists; the others stay in
/// their order.
pub open spec fn without(text: Seq<char>, unwanted: Seq<char>) -> Seq<char>
    decreases text.len(),
{
    if text.len() == 0 {
        text
    } else if unwanted.contains(text.last()) {
        without(text.drop_last(), unwanted)
    } else {
        without(text.drop_last(), unwanted).push(text.last())
    }
}

/// Whether `unwanted` lists `c`.
pub fn lists(unwanted: &Vec<char>, c: char) -> (listed: bool)
    ensures
        listed == unwanted@.contains(c),
{
    let mut i: usize = 0;
    while i < unwanted.len()
        invariant
            i <= unwanted.len(),
            forall|k: int| 0 <= k < i ==> unwanted@[k] != c,
        decreases unwanted.len() - i,
    {
        if unwanted[i] == c {
            return true;
        }
        i = i + 1;
    }
    false
}

/// Drops from `text` every character that `unwanted` lists.
pub fn remove_chars(text: &Vec<char>, unwanted: &Vec<char>) -> (kept: Vec<char>)
    ensures
        kept@ == without(text@, unwanted@),
{
    let mut kept: Vec<char> = Vec::new();
    let mut i: usize = 0;
    while i < text.len()
        invariant
            i <= text.len(),
            kept@ == without(text@.take(i as int), unwanted@),
        decreases text.len() - i,
    {
        let c = text[i];
        proof {
            assert(text@.take(i + 1).drop_last() =~= text@.take(i as int));
            assert(text@.take(i + 1).last() == c);
        }
        if !lists(unwanted, c) {
            kept.push(c);
        }
        i = i + 1;
    }
    assert(text@.take(text.len() as int) =~= text@);
    kept
}

/// White space: the code points that Unicode gives the property White_Space.
pub open spec fn is_blank(c: char) -> bool {
    ||| '\u{9}' <= c <= '\u{d}'
    ||| c == ' '
    ||| c == '\u{85}'
    ||| c == '\u{a0}'
    ||| c == '\u{1680}'
    ||| '\u{2000}' <= c <= '\u{200a}'
    ||| c == '\u{2028}'
    ||| c == '\u{2029}'
    ||| c == '\u{202f}'
    ||| c == '\u{205f}'
    ||| c == '\u{3000}'
}

/// `text` without the white space it begins with.
pub open spec fn trim_start(text: Seq<char>) -> Seq<char>
    decreases text.len(),
{
    if text.len() > 0 && is_blank(text.first()) {
        trim_start(text.drop_first())
    } else {
        text
    }
}

/// `text` without the white space it ends with.
pub open spec fn trim_end(text: Seq<char>) -> Seq<char>
    decreases text.len(),
{
    if text.len() > 0 && is_blank(text.last()) {
        trim_end(text.drop_last())
    } else {
        text
    }
}

/// `text` without the white space at either end.
pub open spec fn trim(text: Seq<char>) -> Seq<char> {
    trim_end(trim_start(text))
}

/// Whether `c` is white space.
pub fn blank(c: char) -> (yes: bool)
    ensures
        yes == is_blank(c),
{
    ('\u{9}' <= c && c <= '\u{d}') || c == ' ' || c == '\u{85}' || c == '\u{a0}' || c
        == '\u{1680}' || ('\u{2000}' <= c && c <= '\u{200a}') || c == '\u{2028}' || c
        == '\u{2029}' || c == '\u{202f}' || c == '\u{205f}' || c == '\u{3000}'
}

/// Drops the white space at either end of `text`.
pub fn trim_blanks(text: &Vec<char>) -> (trimmed: Vec<char>)
    ensures
        trimmed@ == trim(text@),
{
    let mut start: usize = 0;
    assert(text@.skip(0) =~= text@);
    while start < text.len() && blank(text[start])
        invariant
            start <= text.len(),
            trim_start(text@) == trim_start(text@.skip(start as int)),
        decreases text.len() - start,
    {
        assert(text@.skip(start as int).drop_first() =~= text@.skip(start + 1));
        start = start + 1;
    }
    let mut end: usize = text.len();
    assert(text@.skip(start as int) =~= text@.subrange(start as int, end as int));
    while end > start && blank(text[end - 1])
        invariant
            start <= end <= text.len(),
            trim(text@) == trim_end(text@.subrange(start as int, end as int)),
        decreases end,
    {
        assert(text@.subrange(start as int, end as int).drop_last() =~= text@.subrange(
            start as int,
            end - 1,
        ));
        end = end - 1;
    }
    let mut trimmed: Vec<char> = Vec::new();
    let mut i: usize = start;
    while i < end
        invariant
            start <= i <= end <= text.len(),
            trimmed@ == text@.subrange(start as int, i as int),
        decreases end - i,
    {
        trimmed.push(text[i]);
        i = i + 1;
        assert(text@.subrange(start as int, i as int) =~= text@.subrange(start as int, i - 1).push(
            text@[i - 1],
        ));
    }
    trimmed
}

/// The numeral of one decimal digit.
pub open spec fn digit(d: nat) -> char {
    if d == 0 {
        '0'
    } else if d == 1 {
        '1'
    } else if d == 2 {
        '2'
    } else if d == 3 {
        '3'
    } else if d == 4 {
        '4'
    } else if d == 5 {
        '5'
    } else if d == 6 {
        '6'
    } else if d == 7 {
        '7'
    } else if d == 8 {
        '8'
    } else {
        '9'
    }
}

/// `n` written in decimal digits, the most significant first, without
/// leading zeros.
pub open spec fn decimal(n: nat) -> Seq<char>
    decreases n,
{
    if n < 10 {
        seq![digit(n)]
    } else {
        decimal(n / 10).push(digit(n % 10))
    }
}

/// The number that a numeral stands for.
pub open spec fn numeral_value(numeral: Seq<char>) -> nat
    decreases numeral.len(),
{
    if numeral.len() == 0 {
        0
    } else {
        let last = numeral.last();
        let units: nat = if last == '1' {
            1
        } else if last == '2' {
            2
        } else if last == '3' {
            3
        } else if last == '4' {
            4
        } else if last == '5' {
            5
        } else if last == '6' {
            6
        } else if last == '7' {
            7
        } else if last == '8' {
            8
        } else if last == '9' {
            9
        } else {
            0
        };
        10 * numeral_value(numeral.drop_last()) + units
    }
}

/// The decimal numeral of a number stands for that number; it has a digit
/// at least, and begins with `0` only where the number is 0.
pub proof fn lemma_decimal_value(n: nat)
    ensures
        numeral_value(decimal(n)) == n,
        decimal(n).len() >= 1,
        decimal(n).first() == '0' ==> n == 0,
    decreases n,
{
    if n < 10 {
        assert(decimal(n).drop_last() =~= Seq::<char>::empty());
        assert(numeral_value(decimal(n).drop_last()) == 0);
        assert(decimal(n).last() == digit(n));
    } else {
        lemma_decimal_value(n / 10);
        assert(decimal(n).drop_last() =~= decimal(n / 10));
        assert(decimal(n).last() == digit(n % 10));
        assert(decimal(n).first() == decimal(n / 10).first());
    }
}

fn digit_char(d: u128) -> (c: char)
    requires
        d < 10,
    ensures
        c == digit(d as nat),
{
    if d == 0 {
        '0'
    } else if d == 1 {
        '1'
    } else if d == 2 {
        '2'
    } else if d == 3 {
        '3'
    } else if d == 4 {
        '4'
    } else if d == 5 {
        '5'
    } else if d == 6 {
        '6'
    } else if d == 7 {
        '7'
    } else if d == 8 {
        '8'
    } else {
        '9'
    }
}

/// Writes `n` in decimal behind what `out` holds.
pub fn push_decimal(n: u128, out: &mut Vec<char>)
    ensures
        final(out)@ == old(out)@ + decimal(n as nat),
    decreases n,
{
    if n >= 10 {
        push_decimal(n / 10, out);
    }
    out.push(digit_char(n % 10));
}

} // verus!
