//! File names for the generated documents.
//!
//! A playlist's display name becomes a file name by replacing the characters
//! that common file systems reserve and trimming white space at both ends.
//! Nothing makes two names differ: playlists whose names sanitize alike share
//! a file name.

use vstd::prelude::*;
use crate::format::Format;

verus! {

/// Whether a file name may not hold `c`: one of `/ \ : * ? " < > |`.
pub open spec fn is_reserved(c: char) -> bool {
    c == '/' || c == '\\' || c == ':' || c == '*' || c == '?' || c == '"' || c == '<' || c == '>'
        || c == '|'
}

/// A hyphen for a reserved character, every other character itself.
pub open spec fn safe_char(c: char) -> char {
    if is_reserved(c) {
        '-'
    } else {
        c
    }
}

/// `s` with every reserved character replaced by a hyphen.
pub open spec fn with_safe_chars(s: Seq<char>) -> Seq<char> {
    Seq::new(s.len(), |i: int| safe_char(s[i]))
}

/// Whether `c` has the Unicode property White_Space.
pub open spec fn is_whitespace(c: char) -> bool {
    let n = c as u32;
    ||| 0x09 <= n <= 0x0D
    ||| n == 0x20
    ||| n == 0x85
    ||| n == 0xA0
    ||| n == 0x1680
    ||| 0x2000 <= n <= 0x200A
    ||| n == 0x2028
    ||| n == 0x2029
    ||| n == 0x202F
    ||| n == 0x205F
    ||| n == 0x3000
}

/// Whether `s` holds white space only; the empty text does.
pub open spec fn is_blank(s: Seq<char>) -> bool {
    forall|i: int| 0 <= i < s.len() ==> is_whitespace(#[trigger] s[i])
}

/// `s` without the white space at its start.
pub open spec fn trim_start(s: Seq<char>) -> Seq<char>
    decreases s.len(),
{
    if s.len() > 0 && is_whitespace(s[0]) {
        trim_start(s.drop_first())
    } else {
        s
    }
}

/// `s` without the white space at its end.
pub open spec fn trim_end(s: Seq<char>) -> Seq<char>
    decreases s.len(),
{
    if s.len() > 0 && is_whitespace(s.last()) {
        trim_end(s.drop_last())
    } else {
        s
    }
}

/// `s` without the white space at either end; white space inside stays.
pub open spec fn trimmed(s: Seq<char>) -> Seq<char> {
    trim_end(trim_start(s))
}

/// The file name stem made from a playlist's display name.
pub open spec fn sanitized_name(name: Seq<char>) -> Seq<char> {
    trimmed(with_safe_chars(name))
}

/// The file name of a playlist's document: the sanitized name, a dot and the
/// format's extension.
pub open spec fn file_name(name: Seq<char>, format: Format) -> Seq<char> {
    sanitized_name(name) + "."@ + format.extension_text()
}

/// Whether `c` has the Unicode property White_Space.
pub fn is_whitespace_char(c: char) -> (r: bool)
    ensures
        r == is_whitespace(c),
{
    let n: u32 = c as u32;
    (0x09 <= n && n <= 0x0D) || n == 0x20 || n == 0x85 || n == 0xA0 || n == 0x1680 || (0x2000 <= n
        && n <= 0x200A) || n == 0x2028 || n == 0x2029 || n == 0x202F || n == 0x205F || n == 0x3000
}

/// A hyphen for a reserved character, every other character itself.
pub fn replace_reserved(c: char) -> (r: char)
    ensures
        r == safe_char(c),
{
    if c == '/' || c == '\\' || c == ':' || c == '*' || c == '?' || c == '"' || c == '<' || c
        == '>' || c == '|' {
        '-'
    } else {
        c
    }
}

/// What `trim_start` gives is a tail of the text that does not start with
/// white space, and everything before it is white space.
pub proof fn lemma_trim_start_is_tail(s: Seq<char>) -> (k: int)
    ensures
        0 <= k <= s.len(),
        trim_start(s) == s.skip(k),
        is_blank(s.take(k)),
        k < s.len() ==> !is_whitespace(s[k]),
    decreases s.len(),
{
    if s.len() > 0 && is_whitespace(s[0]) {
        let rest = s.drop_first();
        let j = lemma_trim_start_is_tail(rest);
        assert(rest.skip(j) == s.skip(j + 1));
        assert forall|i: int| 0 <= i < j + 1 implies is_whitespace(#[trigger] s.take(j + 1)[i]) by {
            if i > 0 {
                assert(s.take(j + 1)[i] == rest.take(j)[i - 1]);
            }
        }
        j + 1
    } else {
        assert(s.skip(0) == s);
        0
    }
}

/// What `trim_end` gives is a head of the text that does not end with white
/// space, and everything after it is white space.
pub proof fn lemma_trim_end_is_head(s: Seq<char>) -> (k: int)
    ensures
        0 <= k <= s.len(),
        trim_end(s) == s.take(k),
        is_blank(s.skip(k)),
        k > 0 ==> !is_whitespace(s[k - 1]),
    decreases s.len(),
{
    if s.len() > 0 && is_whitespace(s.last()) {
        let rest = s.drop_last();
        let j = lemma_trim_end_is_head(rest);
        assert(rest.take(j) == s.take(j));
        assert forall|i: int| 0 <= i < s.len() - j implies is_whitespace(#[trigger] s.skip(j)[i]) by {
            if i < rest.len() - j {
                assert(s.skip(j)[i] == rest.skip(j)[i]);
            }
        }
        j
    } else {
        assert(s.take(s.len() as int) == s);
        s.len() as int
    }
}

/// Trimming leaves nothing exactly when the text is blank.
pub proof fn lemma_trimmed_empty_iff_blank(s: Seq<char>)
    ensures
        trimmed(s).len() == 0 <==> is_blank(s),
{
    let a = lemma_trim_start_is_tail(s);
    let t = s.skip(a);
    let b = lemma_trim_end_is_head(t);
    if trimmed(s).len() == 0 {
        assert(t.skip(0) == t);
        assert forall|i: int| 0 <= i < s.len() implies is_whitespace(#[trigger] s[i]) by {
            if i < a {
                assert(s[i] == s.take(a)[i]);
            } else {
                assert(s[i] == t[i - a]);
            }
        }
    }
}

/// A trimmed text neither starts nor ends with white space, so trimming it
/// again changes nothing.
pub proof fn lemma_trimmed_is_stable(s: Seq<char>)
    ensures
        trimmed(s).len() > 0 ==> !is_whitespace(trimmed(s).first()) && !is_whitespace(
            trimmed(s).last(),
        ),
        trimmed(trimmed(s)) == trimmed(s),
{
    let a = lemma_trim_start_is_tail(s);
    let t = s.skip(a);
    let b = lemma_trim_end_is_head(t);
    let u = trimmed(s);
    if u.len() > 0 {
        assert(u[0] == s[a]);
        assert(u.last() == t[b - 1]);
    }
}

/// A trimmed text is a stretch of the text it was made from.
pub proof fn lemma_trimmed_is_stretch(s: Seq<char>) -> (bounds: (int, int))
    ensures
        0 <= bounds.0 <= bounds.1 <= s.len(),
        trimmed(s) == s.subrange(bounds.0, bounds.1),
{
    let a = lemma_trim_start_is_tail(s);
    let t = s.skip(a);
    let b = lemma_trim_end_is_head(t);
    assert(t.take(b) == s.subrange(a, a + b));
    (a, a + b)
}

/// A sanitized name holds no reserved character.
pub proof fn lemma_sanitized_name_has_no_reserved(name: Seq<char>)
    ensures
        forall|i: int|
            0 <= i < sanitized_name(name).len() ==> !is_reserved(
                #[trigger] sanitized_name(name)[i],
            ),
{
    let safe = with_safe_chars(name);
    let (a, b) = lemma_trimmed_is_stretch(safe);
    assert forall|i: int| 0 <= i < sanitized_name(name).len() implies !is_reserved(
        #[trigger] sanitized_name(name)[i],
    ) by {
        assert(sanitized_name(name)[i] == safe[a + i]);
    }
}

/// A sanitized name is empty exactly when the display name is blank: a
/// reserved character becomes a hyphen, which trimming keeps.
pub proof fn lemma_sanitized_name_empty_iff_blank(name: Seq<char>)
    ensures
        sanitized_name(name).len() == 0 <==> is_blank(name),
{
    let safe = with_safe_chars(name);
    lemma_trimmed_empty_iff_blank(safe);
    if is_blank(name) {
        assert forall|i: int| 0 <= i < safe.len() implies is_whitespace(#[trigger] safe[i]) by {
            assert(is_whitespace(name[i]));
        }
    }
    if is_blank(safe) {
        assert forall|i: int| 0 <= i < name.len() implies is_whitespace(#[trigger] name[i]) by {
            assert(is_whitespace(safe[i]));
        }
    }
}

/// Makes a file name stem from a playlist's display name: each of
/// `/ \ : * ? " < > |` becomes a hyphen, then white space at both ends goes.
///
/// The result holds no reserved character, does not start or end with white
/// space, and is empty only for a blank display name.
pub fn sanitize_filename(name: &str) -> (r: String)
    ensures
        r@ == sanitized_name(name@),
        forall|i: int| 0 <= i < r@.len() ==> !is_reserved(#[trigger] r@[i]),
        r@.len() == 0 <==> is_blank(name@),
        trimmed(r@) == r@,
{
    let mut chars: Vec<char> = Vec::new();
    for c in it: name.chars()
        invariant
            it.seq() == name@,
            chars@.len() == it.index(),
            forall|j: int| 0 <= j < chars@.len() ==> chars@[j] == safe_char(name@[j]),
    {
        chars.push(replace_reserved(c));
    }
    assert(chars@ == with_safe_chars(name@));
    assert(chars@.skip(0) == chars@);
    let len = chars.len();
    let mut start: usize = 0;
    while start < len && is_whitespace_char(chars[start])
        invariant
            len == chars@.len(),
            start <= len,
            trim_start(chars@.skip(start as int)) == trim_start(chars@),
        decreases len - start,
    {
        proof {
            assert(chars@.skip(start as int).drop_first() == chars@.skip(start + 1));
        }
        start += 1;
    }
    let ghost tail = chars@.skip(start as int);
    assert(trim_start(chars@) == tail) by {
        if start < len {
            assert(tail[0] == chars@[start as int]);
        }
    }
    let mut end: usize = len;
    while end > start && is_whitespace_char(chars[end - 1])
        invariant
            len == chars@.len(),
            start <= end <= len,
            tail == chars@.skip(start as int),
            trim_end(chars@.subrange(start as int, end as int)) == trim_end(tail),
        decreases end - start,
    {
        proof {
            assert(chars@.subrange(start as int, end as int).drop_last() == chars@.subrange(
                start as int,
                end - 1,
            ));
        }
        end -= 1;
    }
    let ghost kept = chars@.subrange(start as int, end as int);
    assert(trim_end(tail) == kept) by {
        if end > start {
            assert(kept.last() == chars@[end - 1]);
        }
    }
    let mut out = String::new();
    let mut at: usize = start;
    while at < end
        invariant
            start <= at <= end <= chars@.len(),
            out@ == chars@.subrange(start as int, at as int),
        decreases end - at,
    {
        out.push(chars[at]);
        proof {
            assert(chars@.subrange(start as int, at as int).push(chars@[at as int])
                == chars@.subrange(start as int, at + 1));
        }
        at += 1;
    }
    proof {
        lemma_sanitized_name_has_no_reserved(name@);
        lemma_sanitized_name_empty_iff_blank(name@);
        lemma_trimmed_is_stable(with_safe_chars(name@));
    }
    out
}

/// A playlist's file name holds no reserved character, whatever the
/// playlist is called.
pub proof fn lemma_file_name_has_no_reserved(name: Seq<char>, format: Format)
    ensures
        forall|i: int|
            0 <= i < file_name(name, format).len() ==> !is_reserved(
                #[trigger] file_name(name, format)[i],
            ),
{
    lemma_sanitized_name_has_no_reserved(name);
    reveal_strlit(".");
    reveal_strlit("md");
    reveal_strlit("html");
    let stem = sanitized_name(name);
    let full = file_name(name, format);
    assert forall|i: int| 0 <= i < full.len() implies !is_reserved(#[trigger] full[i]) by {
        if i < stem.len() {
            assert(full[i] == stem[i]);
        } else if i == stem.len() {
            assert(full[i] == '.');
        } else {
            assert(full[i] == format.extension_text()[i - stem.len() - 1]);
        }
    }
}

/// The file name of the document of the playlist called `name`; it holds no
/// reserved character.
pub fn playlist_file_name(name: &str, format: Format) -> (r: String)
    ensures
        r@ == file_name(name@, format),
        forall|i: int| 0 <= i < r@.len() ==> !is_reserved(#[trigger] r@[i]),
{
    let mut out = sanitize_filename(name);
    out.append(".");
    out.append(format.extension());
    proof {
        lemma_file_name_has_no_reserved(name@, format);
        assert(out@ == file_name(name@, format));
    }
    out
}

} // verus!
