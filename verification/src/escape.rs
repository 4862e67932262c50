//! Escaping of user text for the two output formats.

use vstd::prelude::*;
use crate::text::{
    lemma_replaced_absent, lemma_replaced_concat, lemma_replaced_single, replace_char, replaced,
};

verus! {

/// The text that stands for one character in HTML: the entity of each of the
/// five special characters, every other character itself.
pub open spec fn html_entity(c: char) -> Seq<char> {
    if c == '&' {
        "&amp;"@
    } else if c == '<' {
        "&lt;"@
    } else if c == '>' {
        "&gt;"@
    } else if c == '"' {
        "&quot;"@
    } else if c == '\'' {
        "&#39;"@
    } else {
        seq![c]
    }
}

/// `s` with each character written as `html_entity` gives it.
pub open spec fn html_entities(s: Seq<char>) -> Seq<char>
    decreases s.len(),
{
    if s.len() == 0 {
        Seq::empty()
    } else {
        html_entities(s.drop_last()) + html_entity(s.last())
    }
}

/// HTML escaping as five replacements, one after the other, the ampersand
/// first so that the ampersands of the entities written later stay as they are.
pub open spec fn escaped_html(s: Seq<char>) -> Seq<char> {
    replaced(
        replaced(
            replaced(replaced(replaced(s, '&', "&amp;"@), '<', "&lt;"@), '>', "&gt;"@),
            '"',
            "&quot;"@,
        ),
        '\'',
        "&#39;"@,
    )
}

/// Whether `c` is one of the characters that HTML escaping replaces.
pub open spec fn is_html_special(c: char) -> bool {
    c == '&' || c == '<' || c == '>' || c == '"' || c == '\''
}

/// Whether `pattern` stands in `s` at position `at`.
pub open spec fn occurs_at(s: Seq<char>, at: int, pattern: Seq<char>) -> bool {
    &&& 0 <= at
    &&& at + pattern.len() <= s.len()
    &&& s.subrange(at, at + pattern.len()) == pattern
}

/// Whether one of the five entities starts in `s` at position `at`.
pub open spec fn entity_at(s: Seq<char>, at: int) -> bool {
    ||| occurs_at(s, at, "&amp;"@)
    ||| occurs_at(s, at, "&lt;"@)
    ||| occurs_at(s, at, "&gt;"@)
    ||| occurs_at(s, at, "&quot;"@)
    ||| occurs_at(s, at, "&#39;"@)
}

/// Whether `out` is free of raw special characters: it holds no `<`, `>`,
/// `"` or `'` at all, and every `&` in it starts an entity.
pub open spec fn html_safe(out: Seq<char>) -> bool {
    forall|i: int|
        0 <= i < out.len() ==> {
            &&& #[trigger] out[i] != '<'
            &&& out[i] != '>'
            &&& out[i] != '"'
            &&& out[i] != '\''
            &&& (out[i] == '&' ==> entity_at(out, i))
        }
}

/// A pattern that stands in a text stands at the same place in every
/// extension of the text.
pub proof fn lemma_occurs_at_extends(s: Seq<char>, more: Seq<char>, at: int, pattern: Seq<char>)
    ensures
        occurs_at(s, at, pattern) ==> occurs_at(s + more, at, pattern),
{
    if occurs_at(s, at, pattern) {
        assert((s + more).subrange(at, at + pattern.len()) == s.subrange(at, at + pattern.len()));
    }
}

/// Escaping a text of one character gives that character's entity.
pub proof fn lemma_escaped_html_single(c: char)
    ensures
        escaped_html(seq![c]) == html_entity(c),
{
    reveal_strlit("&amp;");
    reveal_strlit("&lt;");
    reveal_strlit("&gt;");
    reveal_strlit("&quot;");
    reveal_strlit("&#39;");
    let s0 = seq![c];
    let s1 = replaced(s0, '&', "&amp;"@);
    let s2 = replaced(s1, '<', "&lt;"@);
    let s3 = replaced(s2, '>', "&gt;"@);
    let s4 = replaced(s3, '"', "&quot;"@);
    let s5 = replaced(s4, '\'', "&#39;"@);
    lemma_replaced_single(c, '&', "&amp;"@);
    if c == '&' {
        lemma_replaced_absent(s1, '<', "&lt;"@);
        lemma_replaced_absent(s2, '>', "&gt;"@);
        lemma_replaced_absent(s3, '"', "&quot;"@);
        lemma_replaced_absent(s4, '\'', "&#39;"@);
    } else {
        lemma_replaced_single(c, '<', "&lt;"@);
        if c == '<' {
            lemma_replaced_absent(s2, '>', "&gt;"@);
            lemma_replaced_absent(s3, '"', "&quot;"@);
            lemma_replaced_absent(s4, '\'', "&#39;"@);
        } else {
            lemma_replaced_single(c, '>', "&gt;"@);
            if c == '>' {
                lemma_replaced_absent(s3, '"', "&quot;"@);
                lemma_replaced_absent(s4, '\'', "&#39;"@);
            } else {
                lemma_replaced_single(c, '"', "&quot;"@);
                if c == '"' {
                    lemma_replaced_absent(s4, '\'', "&#39;"@);
                } else {
                    lemma_replaced_single(c, '\'', "&#39;"@);
                }
            }
        }
    }
}

/// Escaping distributes over concatenation.
pub proof fn lemma_escaped_html_concat(a: Seq<char>, b: Seq<char>)
    ensures
        escaped_html(a + b) == escaped_html(a) + escaped_html(b),
{
    lemma_replaced_concat(a, b, '&', "&amp;"@);
    let a1 = replaced(a, '&', "&amp;"@);
    let b1 = replaced(b, '&', "&amp;"@);
    lemma_replaced_concat(a1, b1, '<', "&lt;"@);
    let a2 = replaced(a1, '<', "&lt;"@);
    let b2 = replaced(b1, '<', "&lt;"@);
    lemma_replaced_concat(a2, b2, '>', "&gt;"@);
    let a3 = replaced(a2, '>', "&gt;"@);
    let b3 = replaced(b2, '>', "&gt;"@);
    lemma_replaced_concat(a3, b3, '"', "&quot;"@);
    let a4 = replaced(a3, '"', "&quot;"@);
    let b4 = replaced(b3, '"', "&quot;"@);
    lemma_replaced_concat(a4, b4, '\'', "&#39;"@);
}

/// The five replacements in a row amount to writing each character as its
/// entity: no replacement touches what an earlier one wrote.
pub proof fn lemma_escaped_html_by_character(s: Seq<char>)
    ensures
        escaped_html(s) == html_entities(s),
    decreases s.len(),
{
    if s.len() == 0 {
        assert(replaced(s, '&', "&amp;"@) == Seq::<char>::empty());
    } else {
        lemma_escaped_html_by_character(s.drop_last());
        lemma_escaped_html_single(s.last());
        lemma_escaped_html_concat(s.drop_last(), seq![s.last()]);
        assert(s.drop_last() + seq![s.last()] == s);
    }
}

/// Escaped text holds no raw `<`, `>`, `"` or `'`, and each `&` in it starts
/// one of the five entities, whatever the text was.
pub proof fn lemma_escaped_html_safe(s: Seq<char>)
    ensures
        html_safe(escaped_html(s)),
    decreases s.len(),
{
    lemma_escaped_html_by_character(s);
    if s.len() > 0 {
        let init = s.drop_last();
        lemma_escaped_html_safe(init);
        lemma_escaped_html_by_character(init);
        let head = html_entities(init);
        let tail = html_entity(s.last());
        let out = head + tail;
        reveal_strlit("&amp;");
        reveal_strlit("&lt;");
        reveal_strlit("&gt;");
        reveal_strlit("&quot;");
        reveal_strlit("&#39;");
        assert forall|i: int| 0 <= i < out.len() implies {
            &&& #[trigger] out[i] != '<'
            &&& out[i] != '>'
            &&& out[i] != '"'
            &&& out[i] != '\''
            &&& (out[i] == '&' ==> entity_at(out, i))
        } by {
            if i < head.len() {
                assert(out[i] == head[i]);
                if head[i] == '&' {
                    assert(entity_at(head, i));
                    lemma_occurs_at_extends(head, tail, i, "&amp;"@);
                    lemma_occurs_at_extends(head, tail, i, "&lt;"@);
                    lemma_occurs_at_extends(head, tail, i, "&gt;"@);
                    lemma_occurs_at_extends(head, tail, i, "&quot;"@);
                    lemma_occurs_at_extends(head, tail, i, "&#39;"@);
                }
            } else {
                let j = i - head.len();
                assert(out[i] == tail[j]);
                if tail[j] == '&' {
                    assert(j == 0);
                    assert(is_html_special(s.last()));
                    assert(out.subrange(i, i + tail.len()) == tail);
                    assert(occurs_at(out, i, tail));
                }
            }
        }
    }
}

/// Written from the front: the entity of the first character, then the
/// rest of the text escaped.
pub proof fn lemma_html_entities_from_front(s: Seq<char>)
    requires
        s.len() > 0,
    ensures
        html_entities(s) == html_entity(s.first()) + html_entities(s.drop_first()),
{
    lemma_escaped_html_by_character(s);
    lemma_escaped_html_by_character(s.drop_first());
    lemma_escaped_html_single(s.first());
    lemma_escaped_html_concat(seq![s.first()], s.drop_first());
    assert(seq![s.first()] + s.drop_first() == s);
}

/// Escaping loses nothing: texts with the same escaped form are the same
/// text, so the escaped form can be read back in one way only.
pub proof fn lemma_escaped_html_is_one_to_one(a: Seq<char>, b: Seq<char>)
    requires
        escaped_html(a) == escaped_html(b),
    ensures
        a == b,
    decreases a.len(),
{
    lemma_escaped_html_by_character(a);
    lemma_escaped_html_by_character(b);
    reveal_strlit("&amp;");
    reveal_strlit("&lt;");
    reveal_strlit("&gt;");
    reveal_strlit("&quot;");
    reveal_strlit("&#39;");
    if a.len() == 0 || b.len() == 0 {
        if a.len() > 0 {
            lemma_html_entities_from_front(a);
            assert(html_entities(a).len() >= html_entity(a.first()).len());
        }
        if b.len() > 0 {
            lemma_html_entities_from_front(b);
            assert(html_entities(b).len() >= html_entity(b.first()).len());
        }
        assert(a.len() == 0 && b.len() == 0);
        assert(a =~= b);
    } else {
        lemma_html_entities_from_front(a);
        lemma_html_entities_from_front(b);
        let out = html_entities(a);
        let ea = html_entity(a.first());
        let eb = html_entity(b.first());
        let ra = html_entities(a.drop_first());
        let rb = html_entities(b.drop_first());
        assert(out == ea + ra);
        assert(out == eb + rb);
        assert(out[0] == ea[0]);
        assert(out[0] == eb[0]);
        if is_html_special(a.first()) || is_html_special(b.first()) {
            assert(is_html_special(a.first()) && is_html_special(b.first()));
            assert(out[1] == ea[1]);
            assert(out[1] == eb[1]);
        }
        assert(a.first() == b.first());
        assert(ra =~= out.skip(ea.len() as int));
        assert(rb =~= out.skip(eb.len() as int));
        lemma_escaped_html_by_character(a.drop_first());
        lemma_escaped_html_by_character(b.drop_first());
        lemma_escaped_html_is_one_to_one(a.drop_first(), b.drop_first());
        assert(a =~= seq![a.first()] + a.drop_first());
        assert(b =~= seq![b.first()] + b.drop_first());
    }
}

/// Escapes a text for HTML: `&`, `<`, `>`, `"` and `'` become `&amp;`,
/// `&lt;`, `&gt;`, `&quot;` and `&#39;`; every other character stays.
pub fn escape_html(text: &str) -> (r: String)
    ensures
        r@ == escaped_html(text@),
        r@ == html_entities(text@),
        html_safe(r@),
{
    let step1 = replace_char(text, '&', "&amp;");
    let step2 = replace_char(step1.as_str(), '<', "&lt;");
    let step3 = replace_char(step2.as_str(), '>', "&gt;");
    let step4 = replace_char(step3.as_str(), '"', "&quot;");
    let step5 = replace_char(step4.as_str(), '\'', "&#39;");
    proof {
        lemma_escaped_html_by_character(text@);
        lemma_escaped_html_safe(text@);
    }
    step5
}

/// Whether `c` is one of the characters that would break a Markdown table
/// row or a link text.
pub open spec fn is_markdown_special(c: char) -> bool {
    c == '|' || c == '[' || c == ']'
}

/// The text that stands for one character in a Markdown table cell: a
/// backslash before each special character, every other character itself.
pub open spec fn markdown_escape(c: char) -> Seq<char> {
    if is_markdown_special(c) {
        seq!['\\', c]
    } else {
        seq![c]
    }
}

/// `s` with each character written as `markdown_escape` gives it.
pub open spec fn markdown_escapes(s: Seq<char>) -> Seq<char>
    decreases s.len(),
{
    if s.len() == 0 {
        Seq::empty()
    } else {
        markdown_escapes(s.drop_last()) + markdown_escape(s.last())
    }
}

/// Markdown escaping as three replacements, one after the other.
pub open spec fn escaped_markdown(s: Seq<char>) -> Seq<char> {
    replaced(replaced(replaced(s, '|', "\\|"@), '[', "\\["@), ']', "\\]"@)
}

/// Whether every `|`, `[` and `]` in `out` has a backslash right before it.
pub open spec fn markdown_safe(out: Seq<char>) -> bool {
    forall|i: int|
        0 <= i < out.len() && is_markdown_special(#[trigger] out[i]) ==> i > 0 && out[i - 1]
            == '\\'
}

/// Escaping a text of one character gives that character's escape.
pub proof fn lemma_escaped_markdown_single(c: char)
    ensures
        escaped_markdown(seq![c]) == markdown_escape(c),
{
    reveal_strlit("\\|");
    reveal_strlit("\\[");
    reveal_strlit("\\]");
    let s1 = replaced(seq![c], '|', "\\|"@);
    let s2 = replaced(s1, '[', "\\["@);
    lemma_replaced_single(c, '|', "\\|"@);
    if c == '|' {
        assert("\\|"@ == seq!['\\', '|']);
        lemma_replaced_absent(s1, '[', "\\["@);
        lemma_replaced_absent(s2, ']', "\\]"@);
    } else {
        lemma_replaced_single(c, '[', "\\["@);
        if c == '[' {
            assert("\\["@ == seq!['\\', '[']);
            lemma_replaced_absent(s2, ']', "\\]"@);
        } else {
            lemma_replaced_single(c, ']', "\\]"@);
            if c == ']' {
                assert("\\]"@ == seq!['\\', ']']);
            }
        }
    }
}

/// Escaping distributes over concatenation.
pub proof fn lemma_escaped_markdown_concat(a: Seq<char>, b: Seq<char>)
    ensures
        escaped_markdown(a + b) == escaped_markdown(a) + escaped_markdown(b),
{
    lemma_replaced_concat(a, b, '|', "\\|"@);
    let a1 = replaced(a, '|', "\\|"@);
    let b1 = replaced(b, '|', "\\|"@);
    lemma_replaced_concat(a1, b1, '[', "\\["@);
    let a2 = replaced(a1, '[', "\\["@);
    let b2 = replaced(b1, '[', "\\["@);
    lemma_replaced_concat(a2, b2, ']', "\\]"@);
}

/// The three replacements in a row amount to writing each character as its
/// escape.
pub proof fn lemma_escaped_markdown_by_character(s: Seq<char>)
    ensures
        escaped_markdown(s) == markdown_escapes(s),
    decreases s.len(),
{
    if s.len() == 0 {
        assert(replaced(s, '|', "\\|"@) == Seq::<char>::empty());
    } else {
        lemma_escaped_markdown_by_character(s.drop_last());
        lemma_escaped_markdown_single(s.last());
        lemma_escaped_markdown_concat(s.drop_last(), seq![s.last()]);
        assert(s.drop_last() + seq![s.last()] == s);
    }
}

/// In escaped text every `|`, `[` and `]` follows a backslash, whatever the
/// text was.
pub proof fn lemma_escaped_markdown_safe(s: Seq<char>)
    ensures
        markdown_safe(escaped_markdown(s)),
    decreases s.len(),
{
    lemma_escaped_markdown_by_character(s);
    if s.len() > 0 {
        let init = s.drop_last();
        lemma_escaped_markdown_safe(init);
        lemma_escaped_markdown_by_character(init);
        let head = markdown_escapes(init);
        let tail = markdown_escape(s.last());
        let out = head + tail;
        assert forall|i: int|
            0 <= i < out.len() && is_markdown_special(#[trigger] out[i]) implies i > 0 && out[i
                - 1] == '\\' by {
            if i < head.len() {
                assert(out[i] == head[i]);
                assert(out[i - 1] == head[i - 1]);
            } else {
                let j = i - head.len();
                assert(out[i] == tail[j]);
                assert(j == 1);
                assert(out[i - 1] == tail[0]);
            }
        }
    }
}

/// Escapes a text for a Markdown table cell: a backslash goes before each
/// `|`, `[` and `]`; every other character stays.
pub fn escape_markdown(text: &str) -> (r: String)
    ensures
        r@ == escaped_markdown(text@),
        r@ == markdown_escapes(text@),
        markdown_safe(r@),
{
    let step1 = replace_char(text, '|', "\\|");
    let step2 = replace_char(step1.as_str(), '[', "\\[");
    let step3 = replace_char(step2.as_str(), ']', "\\]");
    proof {
        lemma_escaped_markdown_by_character(text@);
        lemma_escaped_markdown_safe(text@);
    }
    step3
}

} // verus!
