//! The error taxonomy: a closed set of variants for every failure a
//! dictionary-processing pipeline can surface.

use vstd::prelude::*;
use crate::text::dec_digits;
use crate::text::dec_string;
use crate::text::push_char;

verus! {

/// The path part of an `InvalidFileFormat` message: the path itself when one
/// is present, and nothing otherwise.
pub open spec fn path_or_empty(path: Option<String>) -> Seq<char> {
    match path {
        Some(p) => p@,
        None => Seq::empty(),
    }
}

/// The ", on line {n}" clause of an `InvalidCharacter` message: present
/// exactly when a line number is.
pub open spec fn line_clause(line: Option<usize>) -> Seq<char> {
    match line {
        Some(n) => ", on line "@ + dec_digits(n as nat),
        None => Seq::empty(),
    }
}

/// The " at position {p}" clause of an `InvalidCharacter` message: present
/// exactly when a position is.
pub open spec fn position_clause(pos: Option<usize>) -> Seq<char> {
    match pos {
        Some(p) => " at position "@ + dec_digits(p as nat),
        None => Seq::empty(),
    }
}

// `std::io::Error` and `std::string::FromUtf8Error` are foreign to the
// verifier; declare them so that `DictError` can carry them whole.
#[verifier::external_type_specification]
#[verifier::external_body]
pub struct ExIoError(std::io::Error);

#[verifier::external_type_specification]
#[verifier::external_body]
pub struct ExFromUtf8Error(std::string::FromUtf8Error);

/// Error type, representing the errors which can be returned by the library.
///
/// A handful of domain-specific variants, plus wrappers around
/// `std::io::Error` and `std::string::FromUtf8Error` that retain the full
/// original error value.
#[derive(Debug)]
pub enum DictError {
    /// An invalid character, e.g. within an index file; carries the offending
    /// character and, optionally, its line number and position.
    InvalidCharacter(char, Option<usize>, Option<usize>),
    /// A line in an index file has fewer than the three expected
    /// tab-separated columns; carries the line number.
    MissingColumnInIndex(usize),
    /// File content does not match any recognised dictionary or index
    /// format; carries an explanation and an optional path to the file.
    InvalidFileFormat(String, Option<String>),
    /// A malicious or malformed index file requested an implausibly large
    /// buffer.
    MemoryError,
    /// A queried word is not present in the dictionary.
    WordNotFound(String),
    /// A wrapped `std::io::Error`.
    IoError(std::io::Error),
    /// A wrapped `std::string::FromUtf8Error`.
    Utf8Error(std::string::FromUtf8Error),
}

impl DictError {
    /// Whether this variant wraps a foreign error, to whose own message,
    /// description and cause the accessors delegate.
    pub open spec fn is_wrapped(self) -> bool {
        self is IoError || self is Utf8Error
    }

    /// The human-readable message of each variant with a message of its own.
    /// For the two wrapped variants the message is the wrapped error's and is
    /// left unspecified here.
    pub open spec fn display_spec(self) -> Seq<char>
        recommends
            !self.is_wrapped(),
    {
        match self {
            DictError::InvalidCharacter(ch, line, pos) => "Invalid character "@ + seq![ch]
                + line_clause(line) + position_clause(pos),
            DictError::MissingColumnInIndex(n) => "line "@ + dec_digits(n as nat)
                + ": not enough <tab>-separated columns found, expected 3"@,
            DictError::InvalidFileFormat(explanation, path) => path_or_empty(path)
                + explanation@,
            DictError::MemoryError => "not enough memory available"@,
            DictError::WordNotFound(word) => "Word not found: "@ + word@,
            DictError::IoError(_) => arbitrary(),
            DictError::Utf8Error(_) => arbitrary(),
        }
    }

    /// The fixed categorical label of each variant with a label of its own.
    /// For the two wrapped variants the label is the wrapped error's and is
    /// left unspecified here.
    pub open spec fn description_spec(self) -> Seq<char>
        recommends
            !self.is_wrapped(),
    {
        match self {
            DictError::InvalidCharacter(..) => "invalid character"@,
            DictError::MissingColumnInIndex(_) => "not enough <tab>-separated columnss given"@,
            DictError::InvalidFileFormat(..) => "could not determine file format"@,
            DictError::MemoryError => "not enough memory available"@,
            DictError::WordNotFound(_) => "word not found"@,
            DictError::IoError(_) => arbitrary(),
            DictError::Utf8Error(_) => arbitrary(),
        }
    }

    /// A single human-readable line for this error.  The two wrapped variants
    /// delegate entirely to the wrapped error's own message; every other
    /// variant renders exactly `display_spec`.
    pub fn display_string(&self) -> (r: String)
        ensures
            !self.is_wrapped() ==> r@ == self.display_spec(),
    {
        match self {
            DictError::IoError(e) => crate::foreign::io_error_message(e),
            DictError::Utf8Error(e) => crate::foreign::utf8_error_message(e),
            DictError::MemoryError => String::from_str("not enough memory available"),
            DictError::WordNotFound(word) => {
                let mut s = String::from_str("Word not found: ");
                s.append(word.as_str());
                proof {
                    assert(s@ =~= self.display_spec());
                }
                s
            },
            DictError::InvalidCharacter(ch, line, pos) => {
                let mut s = String::from_str("Invalid character ");
                push_char(&mut s, *ch);
                if let Some(n) = line {
                    s.append(", on line ");
                    let num = dec_string(*n);
                    s.append(num.as_str());
                }
                if let Some(p) = pos {
                    s.append(" at position ");
                    let num = dec_string(*p);
                    s.append(num.as_str());
                }
                proof {
                    assert(s@ =~= self.display_spec());
                }
                s
            },
            DictError::MissingColumnInIndex(n) => {
                let mut s = String::from_str("line ");
                let num = dec_string(*n);
                s.append(num.as_str());
                s.append(": not enough <tab>-separated columns found, expected 3");
                proof {
                    assert(s@ =~= self.display_spec());
                }
                s
            },
            DictError::InvalidFileFormat(explanation, path) => {
                let mut s = match path {
                    Some(p) => p.clone(),
                    None => String::new(),
                };
                s.append(explanation.as_str());
                proof {
                    assert(s@ =~= self.display_spec());
                }
                s
            },
        }
    }

    /// The short categorical description of this error.  The two wrapped
    /// variants delegate to the wrapped error's own description; every other
    /// variant returns exactly `description_spec`, a fixed label independent
    /// of the payload.
    pub fn description(&self) -> (r: String)
        ensures
            !self.is_wrapped() ==> r@ == self.description_spec(),
    {
        match self {
            DictError::InvalidCharacter(..) => String::from_str("invalid character"),
            DictError::MissingColumnInIndex(_) => String::from_str(
                "not enough <tab>-separated columnss given",
            ),
            DictError::InvalidFileFormat(..) => String::from_str("could not determine file format"),
            DictError::MemoryError => String::from_str("not enough memory available"),
            DictError::WordNotFound(_) => String::from_str("word not found"),
            DictError::IoError(e) => crate::foreign::io_error_description(e),
            DictError::Utf8Error(e) => crate::foreign::utf8_error_description(e),
        }
    }

    /// The underlying cause, rendered through its own message.  Only the two
    /// wrapped variants may have one, delegated to the wrapped error's own
    /// cause; every other variant is the root of its failure chain and has
    /// none.
    pub fn cause(&self) -> (r: Option<String>)
        ensures
            !self.is_wrapped() ==> r is None,
    {
        match self {
            DictError::IoError(e) => crate::foreign::io_error_cause(e),
            DictError::Utf8Error(e) => crate::foreign::utf8_error_cause(e),
            _ => None,
        }
    }
}

/// Displaying a variant with a message of its own never yields the empty
/// string — except for an `InvalidFileFormat` whose explanation and path are
/// both empty, whose message is their empty concatenation.  The message of a
/// wrapped variant is the wrapped error's own and is not described here.
pub proof fn lemma_display_nonempty(e: DictError)
    requires
        !e.is_wrapped(),
        e matches DictError::InvalidFileFormat(explanation, path) ==> explanation@.len() > 0 || (
        path matches Some(p) && p@.len() > 0),
    ensures
        e.display_spec().len() > 0,
{
    reveal_strlit("Invalid character ");
    reveal_strlit("line ");
    reveal_strlit("not enough memory available");
    reveal_strlit("Word not found: ");
}

/// For `InvalidCharacter`, the message is always `"Invalid character {ch}"`
/// followed by the line clause and then the position clause, each of which is
/// empty exactly when its payload is absent: omitting the line number only
/// drops the line clause, omitting the position only drops the position
/// clause, and omitting both leaves just `"Invalid character {ch}"`.
pub proof fn lemma_invalid_character_clauses(ch: char, line: Option<usize>, pos: Option<usize>)
    ensures
        DictError::InvalidCharacter(ch, None, None).display_spec() == "Invalid character "@ + seq![
            ch,
        ],
        DictError::InvalidCharacter(ch, line, pos).display_spec() == DictError::InvalidCharacter(
            ch,
            None,
            None,
        ).display_spec() + line_clause(line) + position_clause(pos),
        line is None <==> line_clause(line) == Seq::<char>::empty(),
        pos is None <==> position_clause(pos) == Seq::<char>::empty(),
{
    assert(DictError::InvalidCharacter(ch, None, None).display_spec() =~= "Invalid character "@
        + seq![ch]);
    assert(DictError::InvalidCharacter(ch, line, pos).display_spec()
        =~= DictError::InvalidCharacter(ch, None, None).display_spec() + line_clause(line)
        + position_clause(pos));
    if let Some(n) = line {
        reveal_strlit(", on line ");
        crate::text::lemma_dec_digits_nonempty(n as nat);
    }
    if let Some(p) = pos {
        reveal_strlit(" at position ");
        crate::text::lemma_dec_digits_nonempty(p as nat);
    }
}

/// The short description of every non-wrapping variant is a fixed, non-empty
/// string, independent of the payload values: two errors of the same variant
/// always share the same description.
pub proof fn lemma_description_fixed(e: DictError)
    requires
        !e.is_wrapped(),
    ensures
        e.description_spec().len() > 0,
        e is InvalidCharacter ==> e.description_spec() == "invalid character"@,
        e is MissingColumnInIndex ==> e.description_spec() == "not enough <tab>-separated columnss given"@,
        e is InvalidFileFormat ==> e.description_spec() == "could not determine file format"@,
        e is MemoryError ==> e.description_spec() == "not enough memory available"@,
        e is WordNotFound ==> e.description_spec() == "word not found"@,
{
    reveal_strlit("invalid character");
    reveal_strlit("not enough <tab>-separated columnss given");
    reveal_strlit("could not determine file format");
    reveal_strlit("not enough memory available");
    reveal_strlit("word not found");
}

// Seamless coercion from the two foreign error types: a propagating call site
// may hand back a `std::io::Error` or a `std::string::FromUtf8Error` and have
// it wrapped, losslessly, into the matching variant.
impl From<std::io::Error> for DictError {
    fn from(err: std::io::Error) -> DictError {
        DictError::IoError(err)
    }
}

impl vstd::std_specs::convert::FromSpecImpl<std::io::Error> for DictError {
    open spec fn obeys_from_spec() -> bool {
        true
    }

    open spec fn from_spec(err: std::io::Error) -> DictError {
        DictError::IoError(err)
    }
}

impl From<std::string::FromUtf8Error> for DictError {
    fn from(err: std::string::FromUtf8Error) -> DictError {
        DictError::Utf8Error(err)
    }
}

impl vstd::std_specs::convert::FromSpecImpl<std::string::FromUtf8Error> for DictError {
    open spec fn obeys_from_spec() -> bool {
        true
    }

    open spec fn from_spec(err: std::string::FromUtf8Error) -> DictError {
        DictError::Utf8Error(err)
    }
}

} // verus!
