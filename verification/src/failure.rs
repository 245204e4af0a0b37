//! Decode failures: the proximate cause and the path of fields around it.

use vstd::prelude::*;
use vstd::string::StringExecFns;
use crate::number::Fault;

verus! {

/// What went wrong, at the place where it went wrong.
#[derive(Debug, PartialEq, Eq)]
pub enum Cause {
    /// The named field is absent.
    MissingField(String),
    /// The named field has no text content.
    EmptyField(String),
    /// The text of the named field is not a value of the kind asked for:
    /// the field, its text, and why the text does not read.
    InvalidField(String, String, Fault),
    /// A list item has another tag than its list asks for: the tag asked
    /// for, and the tag found.
    TagMismatch(String, String),
    /// A list item is of a kind that its list does not know.
    UnknownVariant(String),
    /// The text is not a well-formed document.
    DocumentMalformed,
}

/// A cause in contracts.
pub enum CauseView {
    MissingField(Seq<char>),
    EmptyField(Seq<char>),
    InvalidField(Seq<char>, Seq<char>, Fault),
    TagMismatch(Seq<char>, Seq<char>),
    UnknownVariant(Seq<char>),
    DocumentMalformed,
}

impl View for Cause {
    type V = CauseView;

    open spec fn view(&self) -> CauseView {
        match self {
            Cause::MissingField(name) => CauseView::MissingField(name@),
            Cause::EmptyField(name) => CauseView::EmptyField(name@),
            Cause::InvalidField(name, raw, fault) => CauseView::InvalidField(name@, raw@, *fault),
            Cause::TagMismatch(expected, found) => CauseView::TagMismatch(expected@, found@),
            Cause::UnknownVariant(kind) => CauseView::UnknownVariant(kind@),
            Cause::DocumentMalformed => CauseView::DocumentMalformed,
        }
    }
}

/// A failed decode: the cause, and the fields that the failing place is
/// nested in, outermost first.
#[derive(Debug, PartialEq, Eq)]
pub struct DecodeError {
    pub path: Vec<String>,
    pub cause: Cause,
}

/// A failed decode in contracts.
pub struct Failure {
    pub path: Seq<Seq<char>>,
    pub cause: CauseView,
}

/// The views of a sequence of strings.
pub open spec fn text_views(texts: Seq<String>) -> Seq<Seq<char>> {
    texts.map_values(|s: String| s@)
}

impl View for DecodeError {
    type V = Failure;

    open spec fn view(&self) -> Failure {
        Failure { path: text_views(self.path@), cause: self.cause@ }
    }
}

impl Failure {
    /// A failure at the top of a record, with nothing around it.
    pub open spec fn at_top(cause: CauseView) -> Failure {
        Failure { path: Seq::empty(), cause }
    }

    /// The field `name` is absent.
    pub open spec fn missing(name: Seq<char>) -> Failure {
        Failure::at_top(CauseView::MissingField(name))
    }

    /// The field `name` has no text content.
    pub open spec fn empty(name: Seq<char>) -> Failure {
        Failure::at_top(CauseView::EmptyField(name))
    }

    /// The text `raw` of the field `name` does not read, for the reason
    /// `fault`.
    pub open spec fn invalid(name: Seq<char>, raw: Seq<char>, fault: Fault) -> Failure {
        Failure::at_top(CauseView::InvalidField(name, raw, fault))
    }

    /// A list item has the tag `found` where `expected` is asked for.
    pub open spec fn mismatch(expected: Seq<char>, found: Seq<char>) -> Failure {
        Failure::at_top(CauseView::TagMismatch(expected, found))
    }

    /// A list item declares the kind `kind`, which its list does not know.
    pub open spec fn unknown(kind: Seq<char>) -> Failure {
        Failure::at_top(CauseView::UnknownVariant(kind))
    }

    /// The text is not a well-formed document.
    pub open spec fn malformed() -> Failure {
        Failure::at_top(CauseView::DocumentMalformed)
    }

    /// The same failure, seen from the record that holds the field `name`
    /// in which it happened.
    pub open spec fn within(self, name: Seq<char>) -> Failure {
        Failure { path: seq![name] + self.path, cause: self.cause }
    }
}

/// The cause in words.
pub open spec fn cause_text(cause: CauseView) -> Seq<char> {
    match cause {
        CauseView::MissingField(name) => "field `"@ + name + "` is missing"@,
        CauseView::EmptyField(name) => "field `"@ + name + "` has no content"@,
        CauseView::InvalidField(name, raw, fault) => "invalid content `"@ + raw + "` in `"@ + name
            + "` field: "@ + fault.text(),
        CauseView::TagMismatch(expected, found) => "tag name wasn't `"@ + expected + "` but `"@
            + found + "`"@,
        CauseView::UnknownVariant(kind) => "unknown variant `"@ + kind + "`"@,
        CauseView::DocumentMalformed => "the document is malformed"@,
    }
}

/// What a message says of one field that the failure is nested in.
pub open spec fn within_text(name: Seq<char>) -> Seq<char> {
    "field `"@ + name + "`: "@
}

/// The path in words, outermost field first.
pub open spec fn path_text(path: Seq<Seq<char>>) -> Seq<char>
    decreases path.len(),
{
    if path.len() == 0 {
        Seq::empty()
    } else {
        within_text(path[0]) + path_text(path.drop_first())
    }
}

/// The message of a failure: the fields around it from the outermost in,
/// then the cause.
pub open spec fn render(failure: Failure) -> Seq<char> {
    path_text(failure.path) + cause_text(failure.cause)
}

/// Wrapping a failure in a field puts that field in front of its message,
/// and leaves the rest of the message as it was: however deep a failure
/// lies, its message names every field on the way to it, outermost first.
pub proof fn law_within_renders(failure: Failure, name: Seq<char>)
    ensures
        render(failure.within(name)) == within_text(name) + render(failure),
{
    let path = failure.within(name).path;
    assert(path[0] == name);
    assert(path.drop_first() == failure.path);
    assert(render(failure.within(name)) == (within_text(name) + path_text(failure.path))
        + cause_text(failure.cause));
    assert((within_text(name) + path_text(failure.path)) + cause_text(failure.cause)
        == within_text(name) + (path_text(failure.path) + cause_text(failure.cause)));
}

/// The failure of a nested decode, seen from outside the field `name`.
pub open spec fn nest(inner: Option<Failure>, name: Seq<char>) -> Option<Failure> {
    match inner {
        Some(f) => Some(f.within(name)),
        None => None,
    }
}

impl Cause {
    /// The cause in words.
    pub fn describe(&self) -> (words: String)
        ensures
            words@ == cause_text(self@),
    {
        match self {
            Cause::MissingField(name) => {
                let mut out = String::from_str("field `");
                out.append(name.as_str());
                out.append("` is missing");
                out
            },
            Cause::EmptyField(name) => {
                let mut out = String::from_str("field `");
                out.append(name.as_str());
                out.append("` has no content");
                out
            },
            Cause::InvalidField(name, raw, fault) => {
                let mut out = String::from_str("invalid content `");
                out.append(raw.as_str());
                out.append("` in `");
                out.append(name.as_str());
                out.append("` field: ");
                out.append(fault.describe());
                out
            },
            Cause::TagMismatch(expected, found) => {
                let mut out = String::from_str("tag name wasn't `");
                out.append(expected.as_str());
                out.append("` but `");
                out.append(found.as_str());
                out.append("`");
                out
            },
            Cause::UnknownVariant(kind) => {
                let mut out = String::from_str("unknown variant `");
                out.append(kind.as_str());
                out.append("`");
                out
            },
            Cause::DocumentMalformed => String::from_str("the document is malformed"),
        }
    }
}

impl DecodeError {
    /// The failure in words: the fields that it is nested in, outermost
    /// first, then the cause.
    pub fn message(&self) -> (words: String)
        ensures
            words@ == render(self@),
    {
        let mut out = String::new();
        let mut k: usize = 0;
        let ghost path = self@.path;
        assert(path.skip(0) == path);
        assert(Seq::<char>::empty() + path_text(path) == path_text(path));
        while k < self.path.len()
            invariant
                k <= self.path@.len(),
                path == self@.path,
                out@ + path_text(path.skip(k as int)) == path_text(path),
            decreases self.path@.len() - k,
        {
            let ghost before = out@;
            let ghost rest = path_text(path.skip(k + 1));
            assert(path.skip(k as int).drop_first() == path.skip(k + 1));
            assert(path.skip(k as int)[0] == self.path@[k as int]@);
            out.append("field `");
            out.append(self.path[k].as_str());
            out.append("`: ");
            assert(out@ == before + within_text(path[k as int]));
            assert((before + within_text(path[k as int])) + rest == before + (within_text(
                path[k as int],
            ) + rest));
            k = k + 1;
        }
        assert(path.skip(k as int) == Seq::<Seq<char>>::empty());
        assert(out@ + Seq::<char>::empty() == out@);
        let cause = self.cause.describe();
        out.append(cause.as_str());
        out
    }

    /// The field `name` is absent.
    pub fn missing(name: &str) -> (e: DecodeError)
        ensures
            e@ == Failure::missing(name@),
    {
        let e = DecodeError { path: Vec::new(), cause: Cause::MissingField(name.to_owned()) };
        assert(e@.path == Seq::<Seq<char>>::empty());
        e
    }

    /// The field `name` has no text content.
    pub fn empty(name: &str) -> (e: DecodeError)
        ensures
            e@ == Failure::empty(name@),
    {
        let e = DecodeError { path: Vec::new(), cause: Cause::EmptyField(name.to_owned()) };
        assert(e@.path == Seq::<Seq<char>>::empty());
        e
    }

    /// The text `raw` of the field `name` does not read, for the reason
    /// `fault`.
    pub fn invalid(name: &str, raw: &str, fault: Fault) -> (e: DecodeError)
        ensures
            e@ == Failure::invalid(name@, raw@, fault),
    {
        let e = DecodeError {
            path: Vec::new(),
            cause: Cause::InvalidField(name.to_owned(), raw.to_owned(), fault),
        };
        assert(e@.path == Seq::<Seq<char>>::empty());
        e
    }

    /// A list item has the tag `found` where `expected` is asked for.
    pub fn mismatch(expected: &str, found: &str) -> (e: DecodeError)
        ensures
            e@ == Failure::mismatch(expected@, found@),
    {
        let e = DecodeError {
            path: Vec::new(),
            cause: Cause::TagMismatch(expected.to_owned(), found.to_owned()),
        };
        assert(e@.path == Seq::<Seq<char>>::empty());
        e
    }

    /// A list item declares the kind `kind`, which its list does not know.
    pub fn unknown(kind: &str) -> (e: DecodeError)
        ensures
            e@ == Failure::unknown(kind@),
    {
        let e = DecodeError { path: Vec::new(), cause: Cause::UnknownVariant(kind.to_owned()) };
        assert(e@.path == Seq::<Seq<char>>::empty());
        e
    }

    /// The text is not a well-formed document.
    pub fn malformed() -> (e: DecodeError)
        ensures
            e@ == Failure::malformed(),
    {
        let e = DecodeError { path: Vec::new(), cause: Cause::DocumentMalformed };
        assert(e@.path == Seq::<Seq<char>>::empty());
        e
    }

    /// Wraps the failure in the field `name` that it happened in.
    pub fn within(self, name: &str) -> (e: DecodeError)
        ensures
            e@ == self@.within(name@),
    {
        let mut path = self.path;
        path.insert(0, name.to_owned());
        let e = DecodeError { path, cause: self.cause };
        assert(e@.path == seq![name@] + self@.path);
        e
    }
}

} // verus!
