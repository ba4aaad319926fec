use vstd::prelude::*;
use vstd::std_specs::iter::IteratorSpec;
use vstd::string::{StringExecFns, StringSliceAdditionalSpecFns};

verus! {

/// `String::push` appends one character to the end of the string.
pub assume_specification[ std::string::String::push ](s: &mut std::string::String, ch: char)
    ensures
        final(s)@ == old(s)@.push(ch),
;

/// The characters that separate words: those with the Unicode property `White_Space`.
pub open spec fn is_whitespace(c: char) -> bool {
    let n = c as u32;
    ||| 0x09 <= n <= 0x0d
    ||| n == 0x20
    ||| n == 0x85
    ||| n == 0xa0
    ||| n == 0x1680
    ||| 0x2000 <= n <= 0x200a
    ||| n == 0x2028
    ||| n == 0x2029
    ||| n == 0x202f
    ||| n == 0x205f
    ||| n == 0x3000
}

/// Tells whether `c` separates words.
pub fn is_whitespace_char(c: char) -> (b: bool)
    ensures
        b == is_whitespace(c),
{
    let n: u32 = c as u32;
    (0x09 <= n && n <= 0x0d) || n == 0x20 || n == 0x85 || n == 0xa0 || n == 0x1680 || (0x2000 <= n
        && n <= 0x200a) || n == 0x2028 || n == 0x2029 || n == 0x202f || n == 0x205f || n == 0x3000
}

/// The characters of `s`, in order.
pub fn chars_of(s: &str) -> (v: Vec<char>)
    ensures
        v@ == s@,
{
    let mut it = s.chars();
    let mut v: Vec<char> = Vec::new();
    loop
        invariant
            v@ + it.remaining() == s@,
            it.decrease() is Some,
        ensures
            v@ == s@,
        decreases it.decrease()->0,
    {
        match it.next() {
            Some(c) => {
                v.push(c);
            },
            None => {
                break ;
            },
        }
    }
    v
}

/// Whether two texts hold the same characters.
pub fn same_text(a: &str, b: &str) -> (same: bool)
    ensures
        same == (a@ == b@),
{
    let left = chars_of(a);
    let right = chars_of(b);
    if left.len() != right.len() {
        return false;
    }
    let mut i: usize = 0;
    while i < left.len()
        invariant
            i <= left.len(),
            left.len() == right.len(),
            left@ == a@,
            right@ == b@,
            forall|k: int| 0 <= k < i ==> left@[k] == right@[k],
        decreases left.len() - i,
    {
        if left[i] != right[i] {
            return false;
        }
        i = i + 1;
    }
    assert(left@ =~= right@);
    true
}

/// `a` followed by `b`.
pub fn joined(a: &str, b: &str) -> (text: String)
    ensures
        text@ == a@ + b@,
{
    let mut text = String::from_str(a);
    text.append(b);
    text
}

/// `text` without the whitespace at its end.
pub open spec fn trim_end_spec(text: Seq<char>) -> Seq<char>
    decreases text.len(),
{
    if text.len() > 0 && is_whitespace(text.last()) {
        trim_end_spec(text.drop_last())
    } else {
        text
    }
}

/// Removes the whitespace at the end of `text`.
pub fn trim_end(text: &str) -> (trimmed: String)
    ensures
        trimmed@ == trim_end_spec(text@),
{
    let chars = chars_of(text);
    let mut end: usize = chars.len();
    assert(chars@.take(chars.len() as int) =~= chars@);
    while end > 0 && is_whitespace_char(chars[end - 1])
        invariant
            end <= chars.len(),
            trim_end_spec(chars@) == trim_end_spec(chars@.take(end as int)),
        decreases end,
    {
        assert(chars@.take(end as int).drop_last() =~= chars@.take(end as int - 1));
        end = end - 1;
    }
    let mut trimmed = String::new();
    let mut i: usize = 0;
    while i < end
        invariant
            i <= end <= chars.len(),
            trimmed@ == chars@.take(i as int),
        decreases end - i,
    {
        trimmed.push(chars[i]);
        assert(chars@.take(i as int).push(chars@[i as int]) =~= chars@.take(i as int + 1));
        i = i + 1;
    }
    trimmed
}

/// The text that `String::from_utf8_lossy` makes of `bytes`.
pub uninterp spec fn lossy_text(bytes: Seq<u8>) -> Seq<char>;

/// `String::from_utf8_lossy` reads `bytes` as UTF-8 and puts U+FFFD in the
/// place of what is no valid UTF-8; the contract only names its result.
#[verifier::external_body]
pub(crate) fn utf8_lossy(bytes: &Vec<u8>) -> (text: String)
    ensures
        text@ == lossy_text(bytes@),
{
    String::from_utf8_lossy(bytes).into_owned()
}

/// The text that captured output stands for: its bytes read as UTF-8,
/// without the whitespace at the end.
pub open spec fn captured_text(bytes: Seq<u8>) -> Seq<char> {
    trim_end_spec(lossy_text(bytes))
}

/// Turns captured output into text.
pub fn text_of_output(bytes: &Vec<u8>) -> (text: String)
    ensures
        text@ == captured_text(bytes@),
{
    let decoded = utf8_lossy(bytes);
    trim_end(decoded.as_str())
}

/// The texts of a run of strings.
pub open spec fn texts_view(texts: Seq<String>) -> Seq<Seq<char>> {
    texts.map_values(|t: String| t@)
}

/// Whether `text` begins with `prefix`.
pub fn has_prefix(text: &str, prefix: &str) -> (begins: bool)
    ensures
        begins == prefix@.is_prefix_of(text@),
{
    let whole = chars_of(text);
    let start = chars_of(prefix);
    if start.len() > whole.len() {
        return false;
    }
    let mut i: usize = 0;
    while i < start.len()
        invariant
            i <= start.len() <= whole.len(),
            whole@ == text@,
            start@ == prefix@,
            forall|k: int| 0 <= k < i ==> whole@[k] == start@[k],
        decreases start.len() - i,
    {
        if whole[i] != start[i] {
            assert(whole@.subrange(0, start@.len() as int)[i as int] != start@[i as int]);
            return false;
        }
        i = i + 1;
    }
    assert(whole@.subrange(0, start@.len() as int) =~= start@);
    true
}

/// `text` with `to` in the place of each `from`, taken from the left and
/// not overlapping. An empty `from` is found before each character and at
/// the end.
pub open spec fn replace_spec(text: Seq<char>, from: Seq<char>, to: Seq<char>) -> Seq<char>
    decreases text.len(),
{
    if text.len() == 0 {
        if from.len() == 0 {
            to
        } else {
            text
        }
    } else if from.len() == 0 {
        to + seq![text[0]] + replace_spec(text.skip(1), from, to)
    } else if from.is_prefix_of(text) {
        to + replace_spec(text.skip(from.len() as int), from, to)
    } else {
        seq![text[0]] + replace_spec(text.skip(1), from, to)
    }
}

/// Puts `to` in the place of each `from` in `text`.
pub fn replace(text: &str, from: &str, to: &str) -> (replaced: String)
    ensures
        replaced@ == replace_spec(text@, from@, to@),
{
    let whole = chars_of(text);
    let pattern = chars_of(from);
    let mut replaced = String::new();
    let mut i: usize = 0;
    assert(whole@.skip(0) =~= whole@);
    assert(replaced@ + replace_spec(whole@, pattern@, to@) =~= replace_spec(
        whole@,
        pattern@,
        to@,
    ));
    while i < whole.len()
        invariant
            i <= whole.len(),
            whole@ == text@,
            pattern@ == from@,
            replace_spec(text@, from@, to@) == replaced@ + replace_spec(
                whole@.skip(i as int),
                from@,
                to@,
            ),
        decreases whole.len() - i,
    {
        let ghost rest = whole@.skip(i as int);
        let ghost before = replaced@;
        assert(rest.len() > 0 && rest[0] == whole@[i as int]);
        if pattern.len() == 0 {
            replaced.append(to);
            replaced.push(whole[i]);
            assert(rest.skip(1) =~= whole@.skip(i as int + 1));
            assert(before + (to@ + seq![rest[0]] + replace_spec(rest.skip(1), from@, to@))
                =~= replaced@ + replace_spec(rest.skip(1), from@, to@));
            i = i + 1;
        } else if found_at(&whole, i, &pattern) {
            replaced.append(to);
            assert(rest.skip(pattern@.len() as int) =~= whole@.skip(i as int + pattern@.len()));
            assert(before + (to@ + replace_spec(rest.skip(pattern@.len() as int), from@, to@))
                =~= replaced@ + replace_spec(rest.skip(pattern@.len() as int), from@, to@));
            i = i + pattern.len();
        } else {
            replaced.push(whole[i]);
            assert(rest.skip(1) =~= whole@.skip(i as int + 1));
            assert(before + (seq![rest[0]] + replace_spec(rest.skip(1), from@, to@))
                =~= replaced@ + replace_spec(rest.skip(1), from@, to@));
            i = i + 1;
        }
    }
    assert(whole@.skip(i as int).len() == 0);
    if pattern.len() == 0 {
        replaced.append(to);
    } else {
        assert(replaced@ + Seq::<char>::empty() =~= replaced@);
    }
    replaced
}

/// Whether `pattern` stands in `text` at position `at`.
fn found_at(text: &Vec<char>, at: usize, pattern: &Vec<char>) -> (found: bool)
    requires
        at <= text.len(),
    ensures
        found == pattern@.is_prefix_of(text@.skip(at as int)),
        found ==> at + pattern.len() <= text.len(),
{
    if pattern.len() > text.len() - at {
        return false;
    }
    let ghost rest = text@.skip(at as int);
    let mut k: usize = 0;
    while k < pattern.len()
        invariant
            k <= pattern.len(),
            at + pattern.len() <= text.len(),
            rest == text@.skip(at as int),
            forall|j: int| 0 <= j < k ==> rest[j] == pattern@[j],
        decreases pattern.len() - k,
    {
        if text[at + k] != pattern[k] {
            assert(rest.subrange(0, pattern@.len() as int)[k as int] != pattern@[k as int]);
            return false;
        }
        k = k + 1;
    }
    assert(rest.subrange(0, pattern@.len() as int) =~= pattern@);
    true
}

/// Whether `a` stands before `b` or is `b`, as strings are ordered: by
/// the first character in which they differ, or else by length.
pub open spec fn text_le(a: Seq<char>, b: Seq<char>) -> bool
    decreases a.len(),
{
    if a.len() == 0 {
        true
    } else if b.len() == 0 {
        false
    } else if a[0] != b[0] {
        (a[0] as u32) < (b[0] as u32)
    } else {
        text_le(a.drop_first(), b.drop_first())
    }
}

/// Whether no text stands before one that comes earlier.
pub open spec fn sorted_texts(texts: Seq<Seq<char>>) -> bool {
    forall|i: int, j: int| 0 <= i <= j < texts.len() ==> text_le(texts[i], texts[j])
}

/// `sort_unstable` puts the strings in the order in which `str` compares
/// them, which is by their bytes and so by the code points of their
/// characters, and keeps each as often as it was there.
#[verifier::external_body]
pub(crate) fn sort_texts(texts: &mut Vec<String>)
    ensures
        sorted_texts(texts_view(final(texts)@)),
        texts_view(final(texts)@).to_multiset() == texts_view(old(texts)@).to_multiset(),
{
    texts.sort_unstable();
}

/// How many bytes `text` takes as a string, as `str::len` tells it.
pub open spec fn byte_len(text: Seq<char>) -> usize {
    vstd::utf8::encode_utf8(text).len() as usize
}

/// The text that the first `pos` bytes of the string `line` hold.
pub open spec fn typed_text(line: Seq<char>, pos: int) -> Seq<char> {
    vstd::utf8::decode_utf8(vstd::utf8::encode_utf8(line).subrange(0, pos))
}

/// The front part of a string, cut between two characters, reads as the
/// text of its bytes.
pub proof fn lemma_typed_text(line: &str, typed: &str, pos: int)
    requires
        typed.spec_bytes() =~= line.spec_bytes().subrange(0, pos),
    ensures
        typed@ == typed_text(line@, pos),
{
    vstd::utf8::encode_utf8_decode_utf8(typed@);
}

} // verus!
