//! Text as sequences of characters: the small operations the reports and the
//! sample discovery are built from.

use vstd::prelude::*;
use vstd::std_specs::iter::IteratorSpec;
use vstd::utf8::{decode_utf8, valid_utf8};

verus! {

broadcast use vstd::string::group_string_axioms;

/// `String::push` of the standard library: the character is added at the end.
pub assume_specification[ String::push ](text: &mut String, c: char)
    ensures
        final(text)@ == old(text)@.push(c),
;

/// The characters of a text, in order.
pub fn chars_of(text: &str) -> (chars: Vec<char>)
    ensures
        chars@ == text@,
{
    let mut chars: Vec<char> = Vec::new();
    let mut rest = text.chars();
    loop
        invariant
            rest.obeys_prophetic_iter_laws(),
            chars@ + rest.remaining() == text@,
            rest.decrease() is Some,
        ensures
            chars@ == text@,
        decreases rest.decrease()->0,
    {
        match rest.next() {
            Some(c) => {
                chars.push(c);
            },
            None => {
                break;
            },
        }
    }
    chars
}

/// The text made of `chars[from..to]`.
pub fn text_of(chars: &Vec<char>, from: usize, to: usize) -> (text: String)
    requires
        from <= to <= chars.len(),
    ensures
        text@ == chars@.subrange(from as int, to as int),
{
    let mut text = String::new();
    let mut i: usize = from;
    while i < to
        invariant
            from <= i <= to <= chars.len(),
            text@ == chars@.subrange(from as int, i as int),
        decreases to - i,
    {
        text.push(chars[i]);
        i += 1;
    }
    text
}

/// `count` copies of `c`.
pub open spec fn repeated(c: char, count: nat) -> Seq<char> {
    Seq::new(count, |i: int| c)
}

/// Adds `count` copies of `c` at the end of `text`.
pub fn push_repeated(text: &mut String, c: char, count: usize)
    ensures
        final(text)@ == old(text)@ + repeated(c, count as nat),
{
    let mut done: usize = 0;
    while done < count
        invariant
            done <= count,
            text@ == old(text)@ + repeated(c, done as nat),
        decreases count - done,
    {
        text.push(c);
        done += 1;
    }
}

/// The number of characters in a text.
pub fn char_count(text: &str) -> (count: usize)
    ensures
        count == text@.len(),
{
    text.unicode_len()
}

/// The decimal digit for a value below ten.
pub open spec fn digit(value: nat) -> char
    recommends
        value < 10,
{
    ((48 + value) as u8) as char
}

/// A number written in decimal, without leading zeros.
pub open spec fn decimal(n: nat) -> Seq<char>
    decreases n,
{
    if n < 10 {
        seq![digit(n)]
    } else {
        decimal(n / 10).push(digit(n % 10))
    }
}

fn digit_char(value: usize) -> (c: char)
    requires
        value < 10,
    ensures
        c == digit(value as nat),
{
    let code: u8 = 48u8 + value as u8;
    code as char
}

/// Reversing after adding at the end puts the new character first.
proof fn lemma_reverse_push(s: Seq<char>, c: char)
    ensures
        s.push(c).reverse() == seq![c] + s.reverse(),
{
    assert(s.push(c).reverse() =~= seq![c] + s.reverse());
}

/// Writes a number in decimal.
pub fn decimal_text(n: usize) -> (text: String)
    ensures
        text@ == decimal(n as nat),
{
    let mut low: Vec<char> = Vec::new();
    let mut rest: usize = n;
    proof {
        assert(low@.reverse() =~= Seq::<char>::empty());
        assert(decimal(rest as nat) + low@.reverse() =~= decimal(rest as nat));
    }
    while rest >= 10
        invariant
            decimal(n as nat) == decimal(rest as nat) + low@.reverse(),
        decreases rest,
    {
        let d = digit_char(rest % 10);
        proof {
            lemma_reverse_push(low@, d);
            let high = decimal((rest / 10) as nat);
            assert(decimal(rest as nat) == high.push(d));
            assert(high.push(d) + low@.reverse() =~= high + (seq![d] + low@.reverse()));
        }
        low.push(d);
        rest = rest / 10;
    }
    let mut text = String::new();
    text.push(digit_char(rest));
    let mut i: usize = low.len();
    proof {
        assert(text@ =~= decimal(rest as nat));
        assert(low@.subrange(0, i as int) =~= low@);
    }
    while i > 0
        invariant
            i <= low.len(),
            text@ + low@.subrange(0, i as int).reverse() == decimal(n as nat),
        decreases i,
    {
        i -= 1;
        proof {
            let shorter = low@.subrange(0, i as int);
            let c = low@[i as int];
            assert(low@.subrange(0, i + 1) =~= shorter.push(c));
            lemma_reverse_push(shorter, c);
            assert(text@.push(c) + shorter.reverse() =~= text@ + (seq![c] + shorter.reverse()));
        }
        text.push(low[i]);
    }
    proof {
        assert(low@.subrange(0, 0).reverse() =~= Seq::<char>::empty());
        assert(text@ + Seq::<char>::empty() =~= text@);
    }
    text
}

/// A line without the carriage return that may stand before its line feed.
pub open spec fn without_carriage_return(line: Seq<char>) -> Seq<char> {
    if line.len() > 0 && line.last() == '\r' {
        line.drop_last()
    } else {
        line
    }
}

/// Reads a text up to its end: the lines that a line feed has closed, and
/// the characters that follow the last line feed.
pub open spec fn closed_lines(text: Seq<char>) -> (Seq<Seq<char>>, Seq<char>)
    decreases text.len(),
{
    if text.len() == 0 {
        (Seq::empty(), Seq::empty())
    } else {
        let (lines, open) = closed_lines(text.drop_last());
        if text.last() == '\n' {
            (lines.push(without_carriage_return(open)), Seq::empty())
        } else {
            (lines, open.push(text.last()))
        }
    }
}

/// The lines of a text. A line ends at a line feed, or at a carriage return
/// directly followed by one; neither belongs to the line. The last line
/// needs no line end, so a text says the same with or without a final one.
pub open spec fn lines_of(text: Seq<char>) -> Seq<Seq<char>> {
    let (lines, open) = closed_lines(text);
    if open.len() > 0 {
        lines.push(open)
    } else {
        lines
    }
}

/// Splits a text into its lines.
pub fn split_lines(text: &str) -> (lines: Vec<String>)
    ensures
        lines.deep_view() == lines_of(text@),
{
    let chars = chars_of(text);
    let mut lines: Vec<String> = Vec::new();
    let mut start: usize = 0;
    let mut i: usize = 0;
    assert(chars@.subrange(0, 0) =~= Seq::<char>::empty());
    assert(lines.deep_view() =~= Seq::<Seq<char>>::empty());
    assert(chars@.subrange(0, 0) =~= chars@.subrange(start as int, 0));
    while i < chars.len()
        invariant
            start <= i <= chars.len(),
            chars@ == text@,
            closed_lines(chars@.subrange(0, i as int)) == (
                lines.deep_view(),
                chars@.subrange(start as int, i as int),
            ),
        decreases chars.len() - i,
    {
        let ghost before = chars@.subrange(0, i as int);
        let ghost open = chars@.subrange(start as int, i as int);
        let ghost prefix = chars@.subrange(0, i + 1);
        assert(prefix.drop_last() =~= before);
        assert(prefix.last() == chars@[i as int]);
        if chars[i] == '\n' {
            let mut end: usize = i;
            if end > start && chars[end - 1] == '\r' {
                end -= 1;
            }
            assert(chars@.subrange(start as int, end as int) =~= without_carriage_return(open));
            let line = text_of(&chars, start, end);
            let ghost shorter = lines.deep_view();
            lines.push(line);
            assert(lines.deep_view() =~= shorter.push(without_carriage_return(open)));
            start = i + 1;
            assert(chars@.subrange(start as int, i + 1) =~= Seq::<char>::empty());
        } else {
            assert(chars@.subrange(start as int, i + 1) =~= open.push(chars@[i as int]));
        }
        i += 1;
    }
    assert(chars@.subrange(0, i as int) =~= text@);
    if start < chars.len() {
        let line = text_of(&chars, start, chars.len());
        let ghost shorter = lines.deep_view();
        lines.push(line);
        assert(lines.deep_view() =~= shorter.push(chars@.subrange(start as int, i as int)));
    }
    lines
}

/// The order of texts: character by character, by code point; a text comes
/// before every text it is the beginning of. A text precedes itself.
pub open spec fn precedes(a: Seq<char>, b: Seq<char>) -> bool
    decreases a.len(),
{
    if a.len() == 0 {
        true
    } else if b.len() == 0 {
        false
    } else if a[0] != b[0] {
        (a[0] as u32) < (b[0] as u32)
    } else {
        precedes(a.drop_first(), b.drop_first())
    }
}

/// Different characters have different code points.
proof fn lemma_code_points_differ(c: char, d: char)
    requires
        c != d,
    ensures
        (c as u32) != (d as u32),
{
    vstd::utf8::char_u32_cast(c, c as u32);
    vstd::utf8::char_u32_cast(d, d as u32);
}

/// Of two texts, one precedes the other.
pub proof fn lemma_precedes_total(a: Seq<char>, b: Seq<char>)
    ensures
        precedes(a, b) || precedes(b, a),
    decreases a.len(),
{
    if a.len() > 0 && b.len() > 0 {
        if a[0] == b[0] {
            lemma_precedes_total(a.drop_first(), b.drop_first());
        } else {
            lemma_code_points_differ(a[0], b[0]);
        }
    }
}

/// What precedes a text precedes all that the text precedes.
pub proof fn lemma_precedes_transitive(a: Seq<char>, b: Seq<char>, c: Seq<char>)
    requires
        precedes(a, b),
        precedes(b, c),
    ensures
        precedes(a, c),
    decreases a.len(),
{
    if a.len() > 0 && b.len() > 0 && c.len() > 0 && a[0] == b[0] && b[0] == c[0] {
        lemma_precedes_transitive(a.drop_first(), b.drop_first(), c.drop_first());
    }
}

/// Two texts that precede each other are the same text.
pub proof fn lemma_precedes_antisymmetric(a: Seq<char>, b: Seq<char>)
    requires
        precedes(a, b),
        precedes(b, a),
    ensures
        a == b,
    decreases a.len(),
{
    if a.len() > 0 && b.len() > 0 {
        lemma_precedes_antisymmetric(a.drop_first(), b.drop_first());
        assert(a =~= seq![a[0]] + a.drop_first());
        assert(b =~= seq![b[0]] + b.drop_first());
    } else {
        assert(a =~= b);
    }
}

/// Texts in ascending order.
pub open spec fn ascending(texts: Seq<Seq<char>>) -> bool {
    forall|i: int, j: int| 0 <= i < j < texts.len() ==> precedes(texts[i], texts[j])
}

/// Whether `a` precedes `b` in the order of texts.
pub fn text_precedes(a: &str, b: &str) -> (first: bool)
    ensures
        first == precedes(a@, b@),
{
    let left = chars_of(a);
    let right = chars_of(b);
    let mut i: usize = 0;
    assert(left@.subrange(0, left@.len() as int) =~= left@);
    assert(right@.subrange(0, right@.len() as int) =~= right@);
    while i < left.len() && i < right.len()
        invariant
            i <= left.len(),
            i <= right.len(),
            left@ == a@,
            right@ == b@,
            precedes(a@, b@) == precedes(
                left@.subrange(i as int, left@.len() as int),
                right@.subrange(i as int, right@.len() as int),
            ),
        decreases left.len() - i,
    {
        let ghost l = left@.subrange(i as int, left@.len() as int);
        let ghost r = right@.subrange(i as int, right@.len() as int);
        assert(l[0] == left@[i as int] && r[0] == right@[i as int]);
        if left[i] != right[i] {
            return (left[i] as u32) < (right[i] as u32);
        }
        assert(l.drop_first() =~= left@.subrange(i + 1, left@.len() as int));
        assert(r.drop_first() =~= right@.subrange(i + 1, right@.len() as int));
        i += 1;
    }
    i == left.len()
}

/// Whether two texts are the same.
pub fn same_text(a: &str, b: &str) -> (same: bool)
    ensures
        same == (a@ == b@),
{
    let left = chars_of(a);
    let right = chars_of(b);
    if left.len() != right.len() {
        return false;
    }
    let mut i: usize = 0;
    while i < left.len()
        invariant
            i <= left.len(),
            left.len() == right.len(),
            left@ == a@,
            right@ == b@,
            forall|k: int| 0 <= k < i ==> left@[k] == right@[k],
        decreases left.len() - i,
    {
        if left[i] != right[i] {
            return false;
        }
        i += 1;
    }
    assert(left@ =~= right@);
    true
}

/// The text that `String::from_utf8_lossy` reads out of bytes.
pub uninterp spec fn lossy_text(bytes: Seq<u8>) -> Seq<char>;

/// Calls `String::from_utf8_lossy`. Trusted: the text depends on the bytes
/// alone, and bytes that are valid UTF-8 are decoded as they stand (others
/// have their invalid parts replaced).
#[verifier::external_body]
pub(crate) fn decode_lossy(bytes: &Vec<u8>) -> (text: String)
    ensures
        text@ == lossy_text(bytes@),
        valid_utf8(bytes@) ==> text@ == decode_utf8(bytes@),
{
    String::from_utf8_lossy(bytes.as_slice()).into_owned()
}

/// A text begins with another.
pub open spec fn begins_with(text: Seq<char>, start: Seq<char>) -> bool {
    start.len() <= text.len() && text.subrange(0, start.len() as int) == start
}

/// A text stands somewhere in another.
pub open spec fn occurs_in(part: Seq<char>, text: Seq<char>) -> bool {
    exists|at: int| occurs_at(part, text, at)
}

/// A text stands in another at the given place.
pub open spec fn occurs_at(part: Seq<char>, text: Seq<char>, at: int) -> bool {
    0 <= at && at + part.len() <= text.len() && text.subrange(at, at + part.len()) == part
}

/// Whether `part` stands in `text` at the place `at`.
fn matches_at(text: &Vec<char>, part: &Vec<char>, at: usize) -> (found: bool)
    requires
        at + part.len() <= text.len(),
    ensures
        found == occurs_at(part@, text@, at as int),
{
    let mut i: usize = 0;
    while i < part.len()
        invariant
            i <= part.len(),
            at + part.len() <= text.len(),
            forall|k: int| 0 <= k < i ==> text@[at + k] == part@[k],
        decreases part.len() - i,
    {
        if text[at + i] != part[i] {
            assert(text@.subrange(at as int, at + part.len())[i as int] != part@[i as int]);
            return false;
        }
        i += 1;
    }
    assert(text@.subrange(at as int, at + part.len()) =~= part@);
    true
}

/// Whether a text begins with another.
pub fn starts_with(text: &str, start: &str) -> (found: bool)
    ensures
        found == begins_with(text@, start@),
{
    let all = chars_of(text);
    let first = chars_of(start);
    if first.len() > all.len() {
        return false;
    }
    matches_at(&all, &first, 0)
}

/// Whether a text stands somewhere in another.
pub fn contains(text: &str, part: &str) -> (found: bool)
    ensures
        found == occurs_in(part@, text@),
{
    let all = chars_of(text);
    let wanted = chars_of(part);
    if wanted.len() > all.len() {
        return false;
    }
    if wanted.len() == 0 {
        assert(text@.subrange(0, 0) =~= part@);
        assert(occurs_at(part@, text@, 0));
        return true;
    }
    let last: usize = all.len() - wanted.len();
    let mut at: usize = 0;
    while at <= last
        invariant
            at <= last + 1,
            last == all.len() - wanted.len(),
            0 < wanted.len() <= all.len(),
            all@ == text@,
            wanted@ == part@,
            forall|k: int| 0 <= k < at ==> !occurs_at(part@, text@, k),
        decreases last + 1 - at,
    {
        if matches_at(&all, &wanted, at) {
            return true;
        }
        at += 1;
    }
    false
}

} // verus!
