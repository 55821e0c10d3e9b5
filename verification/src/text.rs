//! Text: trimming, code fences, and decimal numerals.

use vstd::prelude::*;
use vstd::string::{StrSliceExecFns, StringExecFns};

verus! {

/// The characters with the Unicode property `White_Space`.
pub open spec fn is_whitespace(c: char) -> bool {
    ('\u{9}' <= c && c <= '\u{d}') || c == ' ' || c == '\u{85}' || c == '\u{a0}' || c
        == '\u{1680}' || ('\u{2000}' <= c && c <= '\u{200a}') || c == '\u{2028}' || c
        == '\u{2029}' || c == '\u{202f}' || c == '\u{205f}' || c == '\u{3000}'
}

/// `s` without the whitespace it begins with.
pub open spec fn trim_start(s: Seq<char>) -> Seq<char>
    decreases s.len(),
{
    if s.len() > 0 && is_whitespace(s.first()) {
        trim_start(s.drop_first())
    } else {
        s
    }
}

/// `s` without the whitespace it ends with.
pub open spec fn trim_end(s: Seq<char>) -> Seq<char>
    decreases s.len(),
{
    if s.len() > 0 && is_whitespace(s.last()) {
        trim_end(s.drop_last())
    } else {
        s
    }
}

/// `s` without the whitespace around it.
pub open spec fn trim(s: Seq<char>) -> Seq<char> {
    trim_end(trim_start(s))
}

/// `s` without `marker` at its start, as often as it stands there.
pub open spec fn strip_leading(s: Seq<char>, marker: Seq<char>) -> Seq<char>
    decreases s.len(),
{
    if marker.len() > 0 && marker.is_prefix_of(s) {
        strip_leading(s.skip(marker.len() as int), marker)
    } else {
        s
    }
}

/// `s` without `marker` at its end, as often as it stands there.
pub open spec fn strip_trailing(s: Seq<char>, marker: Seq<char>) -> Seq<char>
    decreases s.len(),
{
    if marker.len() > 0 && marker.is_suffix_of(s) {
        strip_trailing(s.take(s.len() - marker.len()), marker)
    } else {
        s
    }
}

/// What is left of a completion once its code fence is taken off: the text
/// is trimmed, loses the opening fence for JSON at its start and the closing
/// fence at its end, and is trimmed again. Nothing inside the text is looked
/// at.
pub open spec fn without_fence(s: Seq<char>) -> Seq<char> {
    trim(strip_trailing(strip_leading(trim(s), "```json"@), "```"@))
}

/// A text between the fence for JSON and the closing fence, each on a line
/// of its own.
pub open spec fn fenced(s: Seq<char>) -> Seq<char> {
    "```json\n"@ + s + "\n```"@
}

/// Whether `c` is whitespace: see [`is_whitespace`].
pub fn whitespace(c: char) -> (r: bool)
    ensures
        r == is_whitespace(c),
{
    ('\u{9}' <= c && c <= '\u{d}') || c == ' ' || c == '\u{85}' || c == '\u{a0}' || c
        == '\u{1680}' || ('\u{2000}' <= c && c <= '\u{200a}') || c == '\u{2028}' || c
        == '\u{2029}' || c == '\u{202f}' || c == '\u{205f}' || c == '\u{3000}'
}

/// The characters of a text.
pub fn characters(text: &str) -> (r: Vec<char>)
    ensures
        r@ == text@,
{
    let mut out: Vec<char> = Vec::new();
    for c in it: text.chars()
        invariant
            out@ == it.seq().take(it.index() as int),
            it.seq() == text@,
    {
        out.push(c);
    }
    out
}

/// Where `chars[lo..hi]` begins once the whitespace at its start is passed.
fn skip_whitespace(chars: &Vec<char>, lo: usize, hi: usize) -> (r: usize)
    requires
        lo <= hi <= chars.len(),
    ensures
        lo <= r <= hi,
        chars@.subrange(r as int, hi as int) == trim_start(chars@.subrange(lo as int, hi as int)),
{
    let mut i = lo;
    while i < hi && whitespace(chars[i])
        invariant
            lo <= i <= hi <= chars.len(),
            trim_start(chars@.subrange(i as int, hi as int)) == trim_start(
                chars@.subrange(lo as int, hi as int),
            ),
        decreases hi - i,
    {
        assert(chars@.subrange(i as int, hi as int).drop_first() =~= chars@.subrange(
            i + 1,
            hi as int,
        ));
        i += 1;
    }
    i
}

/// Where `chars[lo..hi]` ends once the whitespace at its end is dropped.
fn drop_whitespace(chars: &Vec<char>, lo: usize, hi: usize) -> (r: usize)
    requires
        lo <= hi <= chars.len(),
    ensures
        lo <= r <= hi,
        chars@.subrange(lo as int, r as int) == trim_end(chars@.subrange(lo as int, hi as int)),
{
    let mut i = hi;
    while lo < i && whitespace(chars[i - 1])
        invariant
            lo <= i <= hi <= chars.len(),
            trim_end(chars@.subrange(lo as int, i as int)) == trim_end(
                chars@.subrange(lo as int, hi as int),
            ),
        decreases i - lo,
    {
        assert(chars@.subrange(lo as int, i as int).drop_last() =~= chars@.subrange(
            lo as int,
            i - 1,
        ));
        i -= 1;
    }
    i
}

/// Whether `marker` stands at `chars[at..]`.
fn stands_at(chars: &Vec<char>, at: usize, marker: &Vec<char>) -> (r: bool)
    requires
        at + marker.len() <= chars.len(),
    ensures
        r == (chars@.subrange(at as int, at + marker.len()) == marker@),
{
    let mut k: usize = 0;
    while k < marker.len()
        invariant
            k <= marker.len(),
            at + marker.len() <= chars.len(),
            forall|j: int| 0 <= j < k ==> chars@[at + j] == marker@[j],
        decreases marker.len() - k,
    {
        if chars[at + k] != marker[k] {
            return false;
        }
        k += 1;
    }
    assert(chars@.subrange(at as int, at + marker.len()) =~= marker@);
    true
}

/// Where `chars[lo..hi]` begins once every `marker` at its start is passed.
fn skip_marker(chars: &Vec<char>, lo: usize, hi: usize, marker: &Vec<char>) -> (r: usize)
    requires
        lo <= hi <= chars.len(),
        marker.len() > 0,
    ensures
        lo <= r <= hi,
        chars@.subrange(r as int, hi as int) == strip_leading(
            chars@.subrange(lo as int, hi as int),
            marker@,
        ),
{
    let mut i = lo;
    while marker.len() <= hi - i && stands_at(chars, i, marker)
        invariant
            lo <= i <= hi <= chars.len(),
            marker.len() > 0,
            strip_leading(chars@.subrange(i as int, hi as int), marker@) == strip_leading(
                chars@.subrange(lo as int, hi as int),
                marker@,
            ),
        decreases hi - i,
    {
        proof {
            let window = chars@.subrange(i as int, hi as int);
            assert(window.skip(marker.len() as int) =~= chars@.subrange(
                i + marker.len(),
                hi as int,
            ));
        }
        i += marker.len();
    }
    proof {
        let window = chars@.subrange(i as int, hi as int);
        if marker.len() <= hi - i {
            assert(window.subrange(0, marker.len() as int) =~= chars@.subrange(
                i as int,
                i + marker.len(),
            ));
        }
    }
    i
}

/// Where `chars[lo..hi]` ends once every `marker` at its end is dropped.
fn drop_marker(chars: &Vec<char>, lo: usize, hi: usize, marker: &Vec<char>) -> (r: usize)
    requires
        lo <= hi <= chars.len(),
        marker.len() > 0,
    ensures
        lo <= r <= hi,
        chars@.subrange(lo as int, r as int) == strip_trailing(
            chars@.subrange(lo as int, hi as int),
            marker@,
        ),
{
    let mut i = hi;
    while marker.len() <= i - lo && stands_at(chars, i - marker.len(), marker)
        invariant
            lo <= i <= hi <= chars.len(),
            marker.len() > 0,
            strip_trailing(chars@.subrange(lo as int, i as int), marker@) == strip_trailing(
                chars@.subrange(lo as int, hi as int),
                marker@,
            ),
        decreases i - lo,
    {
        proof {
            let window = chars@.subrange(lo as int, i as int);
            assert(window.take(window.len() - marker.len()) =~= chars@.subrange(
                lo as int,
                i - marker.len(),
            ));
        }
        i -= marker.len();
    }
    proof {
        let window = chars@.subrange(lo as int, i as int);
        if marker.len() <= i - lo {
            assert(window.subrange(window.len() - marker.len(), window.len() as int)
                =~= chars@.subrange(i - marker.len(), i as int));
        }
    }
    i
}

/// Takes the code fence off a completion: see [`without_fence`]. The result
/// is a slice of `content`.
pub fn strip_code_fence(content: &str) -> (r: &str)
    ensures
        r@ == without_fence(content@),
{
    let chars = characters(content);
    let opening = characters("```json");
    let closing = characters("```");
    proof {
        reveal_strlit("```json");
        reveal_strlit("```");
    }
    let n = chars.len();
    assert(chars@.subrange(0, n as int) =~= content@);
    let lo = skip_whitespace(&chars, 0, n);
    let hi = drop_whitespace(&chars, lo, n);
    let lo = skip_marker(&chars, lo, hi, &opening);
    let hi = drop_marker(&chars, lo, hi, &closing);
    let lo = skip_whitespace(&chars, lo, hi);
    let hi = drop_whitespace(&chars, lo, hi);
    content.substring_char(lo, hi)
}

/// Whether a text has nothing that the stripping takes: no whitespace
/// around it and no fence at either end.
pub open spec fn is_bare(s: Seq<char>) -> bool {
    &&& s.len() > 0 ==> !is_whitespace(s.first()) && !is_whitespace(s.last())
    &&& !"```json"@.is_prefix_of(s)
    &&& !"```"@.is_suffix_of(s)
}

/// A bare text is what is left of it: the stripping changes nothing where
/// there is nothing to take.
pub proof fn bare_text_is_left_alone(s: Seq<char>)
    requires
        is_bare(s),
    ensures
        trim(s) == s,
        without_fence(s) == s,
{
    reveal_strlit("```json");
    reveal_strlit("```");
}

/// A text that opens with `{` and closes with `}` is bare.
pub proof fn object_text_is_bare(s: Seq<char>)
    requires
        s.len() > 0,
        s.first() == '{',
        s.last() == '}',
    ensures
        is_bare(s),
{
    reveal_strlit("```json");
    reveal_strlit("```");
    let opening = "```json"@;
    let closing = "```"@;
    if opening.is_prefix_of(s) {
        assert(s.subrange(0, 7)[0] == opening[0]);
    }
    if closing.is_suffix_of(s) {
        assert(s.subrange(s.len() - 3, s.len() as int)[2] == closing[2]);
    }
}

/// Whitespace added at the end of a text is lost in trimming.
proof fn whitespace_at_the_end_is_trimmed(s: Seq<char>, c: char)
    requires
        is_whitespace(c),
    ensures
        trim(s.push(c)) == trim(s),
    decreases s.len(),
{
    if s.len() == 0 {
        assert(s.push(c).drop_first() =~= s);
    } else if is_whitespace(s.first()) {
        assert(s.push(c).drop_first() =~= s.drop_first().push(c));
        whitespace_at_the_end_is_trimmed(s.drop_first(), c);
    } else {
        assert(s.push(c).drop_last() =~= s);
    }
}

/// What is left of a fenced text is the text, trimmed: the fence goes, and
/// the line breaks that set it off go with the whitespace.
pub proof fn fence_is_taken_off(s: Seq<char>)
    ensures
        without_fence(fenced(s)) == trim(s),
{
    reveal_strlit("```json");
    reveal_strlit("```");
    reveal_strlit("```json\n");
    reveal_strlit("\n```");
    let opening = "```json"@;
    let closing = "```"@;
    let whole = fenced(s);
    // The opening fence goes once: a line break follows it.
    let tail = whole.skip(7);
    assert(!opening.is_prefix_of(tail)) by {
        if opening.is_prefix_of(tail) {
            assert(tail.subrange(0, 7)[0] == opening[0]);
        }
    }
    assert(strip_leading(tail, opening) == tail);
    // The closing fence goes once: a line break stands before it.
    let inner = tail.take(tail.len() - 3);
    assert(inner =~= (seq!['\n'] + s).push('\n'));
    assert(!closing.is_suffix_of(inner)) by {
        if closing.is_suffix_of(inner) {
            assert(inner.subrange(inner.len() - 3, inner.len() as int)[2] == closing[2]);
        }
    }
    assert(strip_trailing(inner, closing) == inner);
    // The line breaks go with the whitespace.
    whitespace_at_the_end_is_trimmed(seq!['\n'] + s, '\n');
    assert((seq!['\n'] + s).drop_first() =~= s);
}

/// A text that opens with `{` and closes with `}` is what is left of it, and
/// what is left of it inside a fence.
pub proof fn fence_around_an_object_is_taken_off(s: Seq<char>)
    requires
        s.len() > 0,
        s.first() == '{',
        s.last() == '}',
    ensures
        without_fence(s) == s,
        without_fence(fenced(s)) == s,
{
    object_text_is_bare(s);
    bare_text_is_left_alone(s);
    fence_is_taken_off(s);
}

/// The character for a digit.
pub open spec fn digit(d: nat) -> char {
    if d == 0 {
        '0'
    } else if d == 1 {
        '1'
    } else if d == 2 {
        '2'
    } else if d == 3 {
        '3'
    } else if d == 4 {
        '4'
    } else if d == 5 {
        '5'
    } else if d == 6 {
        '6'
    } else if d == 7 {
        '7'
    } else if d == 8 {
        '8'
    } else {
        '9'
    }
}

/// The decimal numeral of a number, without leading zeros.
pub open spec fn decimal(n: nat) -> Seq<char>
    decreases n,
{
    if n < 10 {
        seq![digit(n)]
    } else {
        decimal(n / 10).push(digit(n % 10))
    }
}

fn digit_text(d: u8) -> (r: &'static str)
    requires
        d < 10,
    ensures
        r@ == seq![digit(d as nat)],
{
    proof {
        reveal_strlit("0");
        reveal_strlit("1");
        reveal_strlit("2");
        reveal_strlit("3");
        reveal_strlit("4");
        reveal_strlit("5");
        reveal_strlit("6");
        reveal_strlit("7");
        reveal_strlit("8");
        reveal_strlit("9");
    }
    match d {
        0 => "0",
        1 => "1",
        2 => "2",
        3 => "3",
        4 => "4",
        5 => "5",
        6 => "6",
        7 => "7",
        8 => "8",
        _ => "9",
    }
}

/// Appends the decimal numeral of `n` to `out`.
pub fn push_decimal(out: &mut String, n: u64)
    ensures
        final(out)@ == old(out)@ + decimal(n as nat),
    decreases n,
{
    if n >= 10 {
        push_decimal(out, n / 10);
    }
    out.append(digit_text((n % 10) as u8));
}

} // verus!
