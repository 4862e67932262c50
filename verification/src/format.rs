//! The two output formats and how a format is chosen by name.

use vstd::prelude::*;
use crate::text::same_text;

verus! {

/// An output format.
#[derive(Clone, Copy, Debug, PartialEq, Eq, Structural)]
pub enum Format {
    Markdown,
    Html,
}

/// The lower-case form of a text as `str::to_lowercase` computes it from the
/// Unicode case mappings.
pub uninterp spec fn lowercase_of(s: Seq<char>) -> Seq<char>;

/// `str::to_lowercase`: the result is the lower-case form of the text, which
/// depends on the text alone.
#[verifier::external_body]
fn to_lowercase(text: &str) -> (r: String)
    ensures
        r@ == lowercase_of(text@),
{
    text.to_lowercase()
}

/// The format that a lower-case name selects: `markdown` or `html`, and no
/// other name.
pub open spec fn format_named(lower: Seq<char>) -> Option<Format> {
    if lower == "markdown"@ {
        Some(Format::Markdown)
    } else if lower == "html"@ {
        Some(Format::Html)
    } else {
        None
    }
}

/// The name of the index document in a format.
pub open spec fn index_file_name(format: Format) -> Seq<char> {
    "index."@ + format.extension_text()
}

impl Format {
    /// The file extension of documents in this format, without the dot.
    pub open spec fn extension_text(self) -> Seq<char> {
        match self {
            Format::Markdown => "md"@,
            Format::Html => "html"@,
        }
    }

    /// The file extension of documents in this format, without the dot.
    pub fn extension(self) -> (r: &'static str)
        ensures
            r@ == self.extension_text(),
    {
        match self {
            Format::Markdown => "md",
            Format::Html => "html",
        }
    }

    /// The lower-case name that selects this format.
    pub open spec fn name_text(self) -> Seq<char> {
        match self {
            Format::Markdown => "markdown"@,
            Format::Html => "html"@,
        }
    }

    /// The lower-case name that selects this format.
    pub fn name(self) -> (r: &'static str)
        ensures
            r@ == self.name_text(),
            format_named(r@) == Some(self),
    {
        proof {
            lemma_name_selects_format(self);
        }
        match self {
            Format::Markdown => "markdown",
            Format::Html => "html",
        }
    }

    /// The format selected by a name that is already in lower case.
    pub fn from_lowercase(lower: &str) -> (r: Option<Format>)
        ensures
            r == format_named(lower@),
    {
        if same_text(lower, "markdown") {
            Some(Format::Markdown)
        } else if same_text(lower, "html") {
            Some(Format::Html)
        } else {
            None
        }
    }

    /// The format selected by a name in any mix of upper and lower case;
    /// `None` for a name that is neither `markdown` nor `html`.
    pub fn parse(name: &str) -> (r: Option<Format>)
        ensures
            r == format_named(lowercase_of(name@)),
    {
        let lower = to_lowercase(name);
        Format::from_lowercase(lower.as_str())
    }

    /// The name of the index document in this format.
    pub fn index_name(self) -> (r: String)
        ensures
            r@ == index_file_name(self),
    {
        let mut out = String::from_str("index.");
        out.append(self.extension());
        out
    }
}

/// Each format is selected by its own name, and by no other format's.
pub proof fn lemma_name_selects_format(format: Format)
    ensures
        format_named(format.name_text()) == Some(format),
{
    reveal_strlit("markdown");
    reveal_strlit("html");
    assert("markdown"@.len() != "html"@.len());
}

} // verus!
