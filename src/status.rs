//! The status of a ticket, and how it is read from text.

use vstd::prelude::*;

use crate::text::{
    all_white_space, folds_to, is_ascii_text, is_white_space, lower_of, lowercase,
    lemma_surrounding_white_space, lemma_trimmed_unpadded, lowers_to, trim_white_space, trimmed,
};

verus! {

/// Where a ticket stands.
#[derive(Debug, Clone, Copy, PartialEq, Eq, Structural)]
pub enum Status {
    ToDo,
    InProgress,
    Done,
}

/// Why a text could not be read as a [`Status`].
#[derive(Debug, PartialEq, Eq)]
pub enum ParseStatusError {
    /// The text, exactly as it was given, names no status.
    InvalidStatus { status: String },
}

impl Status {
    /// The name that parsing matches, once the text is trimmed and lower-cased.
    pub open spec fn lower_name(self) -> Seq<char> {
        match self {
            Status::ToDo => seq!['t', 'o', 'd', 'o'],
            Status::InProgress => seq!['i', 'n', 'p', 'r', 'o', 'g', 'r', 'e', 's', 's'],
            Status::Done => seq!['d', 'o', 'n', 'e'],
        }
    }

    /// The name under which the status is written.
    pub open spec fn canonical_name(self) -> Seq<char> {
        match self {
            Status::ToDo => seq!['T', 'o', 'D', 'o'],
            Status::InProgress => seq!['I', 'n', 'P', 'r', 'o', 'g', 'r', 'e', 's', 's'],
            Status::Done => seq!['D', 'o', 'n', 'e'],
        }
    }
}

/// The status whose lower-case name is `n`, if any.
pub open spec fn status_named(n: Seq<char>) -> Option<Status> {
    if n == Status::ToDo.lower_name() {
        Some(Status::ToDo)
    } else if n == Status::InProgress.lower_name() {
        Some(Status::InProgress)
    } else if n == Status::Done.lower_name() {
        Some(Status::Done)
    } else {
        None
    }
}

/// The status that a text stands for: its trimmed, lower-cased form must be a
/// status's name.
pub open spec fn parsed(text: Seq<char>) -> Option<Status> {
    status_named(lower_of(trimmed(text)))
}

/// `text` is the name of `st` once surrounding whitespace is dropped and the
/// case of ASCII letters is ignored.
pub open spec fn names_loosely(text: Seq<char>, st: Status) -> bool {
    folds_to(trimmed(text), st.lower_name())
}

/// `r` is the outcome owed for `expected`: that status, or else the error that
/// carries `original`.
pub open spec fn is_outcome(
    r: Result<Status, ParseStatusError>,
    expected: Option<Status>,
    original: Seq<char>,
) -> bool {
    match expected {
        Some(st) => r == Ok::<Status, ParseStatusError>(st),
        None => r matches Err(ParseStatusError::InvalidStatus { status }) && status@ == original,
    }
}

/// Lowering ASCII letters gives one result only.
proof fn lemma_fold_unique(s: Seq<char>, t: Seq<char>, u: Seq<char>)
    requires
        folds_to(s, t),
        folds_to(s, u),
    ensures
        t == u,
{
    assert forall|i: int| 0 <= i < t.len() implies t[i] == u[i] by {
        assert(lowers_to(s[i], t[i]) && lowers_to(s[i], u[i]));
        assert((t[i] as int) == (u[i] as int));
    }
    assert(t =~= u);
}

/// `c` is one of `'a'..='z'`.
spec fn is_lower_letter(c: char) -> bool {
    0x61 <= (c as int) <= 0x7a
}

/// A status's lower-case name is made of the letters `'a'..='z'` alone.
proof fn lemma_lower_name_letters(st: Status)
    ensures
        forall|i: int| 0 <= i < st.lower_name().len() ==> is_lower_letter(#[trigger] st.lower_name()[i]),
{
    let n = st.lower_name();
    assert forall|i: int| 0 <= i < n.len() implies is_lower_letter(#[trigger] n[i]) by {
        assert(i == 0 || i == 1 || i == 2 || i == 3 || i == 4 || i == 5 || i == 6 || i == 7
            || i == 8 || i == 9);
    }
}

/// A text that folds to a status's name is ASCII, and neither starts nor ends
/// with whitespace.
proof fn lemma_folded_name_shape(s: Seq<char>, st: Status)
    requires
        folds_to(s, st.lower_name()),
    ensures
        is_ascii_text(s),
        s.len() > 0,
        !is_white_space(s[0]),
        !is_white_space(s.last()),
{
    let n = st.lower_name();
    lemma_lower_name_letters(st);
    assert forall|i: int| 0 <= i < s.len() implies 0x41 <= (#[trigger] s[i] as int) <= 0x5a
        || is_lower_letter(s[i]) by {
        assert(lowers_to(s[i], n[i]));
        assert(is_lower_letter(n[i]));
    }
    assert(0x41 <= (s[0] as int) <= 0x5a || is_lower_letter(s[0]));
    assert(0x41 <= (s[s.len() - 1] as int) <= 0x5a || is_lower_letter(s[s.len() - 1]));
}

/// The three lower-case names differ, so each names its own status.
proof fn lemma_status_named(st: Status)
    ensures
        status_named(st.lower_name()) == Some(st),
{
    assert(Status::ToDo.lower_name()[0] != Status::Done.lower_name()[0]);
    assert(Status::ToDo.lower_name().len() != Status::InProgress.lower_name().len());
    assert(Status::Done.lower_name().len() != Status::InProgress.lower_name().len());
}

/// Any casing of a status's lower-case name, such as `TODO` or `tOdO`, names
/// that status.
pub proof fn lemma_casing_names_status(text: Seq<char>, st: Status)
    requires
        folds_to(text, st.lower_name()),
    ensures
        names_loosely(text, st),
{
    lemma_folded_name_shape(text, st);
    lemma_trimmed_unpadded(text);
}

/// Each status's written name names it.
pub proof fn lemma_canonical_name_names_status(st: Status)
    ensures
        names_loosely(st.canonical_name(), st),
{
    let c = st.canonical_name();
    let n = st.lower_name();
    assert forall|i: int| 0 <= i < c.len() implies lowers_to(#[trigger] c[i], n[i]) by {
        assert(i == 0 || i == 1 || i == 2 || i == 3 || i == 4 || i == 5 || i == 6 || i == 7
            || i == 8 || i == 9);
    }
    lemma_casing_names_status(c, st);
}

/// Whitespace added before and after a text changes neither the status it
/// parses to nor which status it names.
pub proof fn lemma_padding_keeps_status(pre: Seq<char>, text: Seq<char>, post: Seq<char>, st: Status)
    requires
        all_white_space(pre),
        all_white_space(post),
    ensures
        parsed(pre + text + post) == parsed(text),
        names_loosely(pre + text + post, st) == names_loosely(text, st),
{
    lemma_surrounding_white_space(pre, text, post);
}

/// Whether two texts hold the same characters.
fn same_text(a: &str, b: &str) -> (r: bool)
    ensures
        r == (a@ == b@),
{
    a.to_owned() == b.to_owned()
}

impl Status {
    /// Matches text that is already trimmed and lower-cased against the three
    /// names; on failure the error carries `original`.
    pub fn from_normalized(normalized: &str, original: &str) -> (r: Result<
        Status,
        ParseStatusError,
    >)
        ensures
            is_outcome(r, status_named(normalized@), original@),
    {
        proof {
            reveal_strlit("todo");
            reveal_strlit("inprogress");
            reveal_strlit("done");
            assert("todo"@ =~= Status::ToDo.lower_name());
            assert("inprogress"@ =~= Status::InProgress.lower_name());
            assert("done"@ =~= Status::Done.lower_name());
        }
        if same_text(normalized, "todo") {
            Ok(Status::ToDo)
        } else if same_text(normalized, "inprogress") {
            Ok(Status::InProgress)
        } else if same_text(normalized, "done") {
            Ok(Status::Done)
        } else {
            Err(ParseStatusError::InvalidStatus { status: String::from_str(original) })
        }
    }

    /// Reads a status from text: surrounding whitespace is dropped and case is
    /// ignored, so `"  ToDo  "`, `"TODO"` and `"todo"` all give [`Status::ToDo`].
    /// Any other text is rejected with an error that carries it unchanged.
    pub fn parse(value: &str) -> (r: Result<Status, ParseStatusError>)
        ensures
            is_outcome(r, parsed(value@), value@),
            forall|st: Status|
                folds_to(value@, #[trigger] st.lower_name()) ==> r == Ok::<
                    Status,
                    ParseStatusError,
                >(st),
            forall|st: Status|
                #[trigger] names_loosely(value@, st) ==> r == Ok::<Status, ParseStatusError>(st),
            forall|st: Status|
                value@ == #[trigger] st.canonical_name() ==> r == Ok::<Status, ParseStatusError>(
                    st,
                ),
            is_ascii_text(trimmed(value@)) && (forall|st: Status| !names_loosely(value@, st))
                ==> is_outcome(r, None, value@),
    {
        let text = trim_white_space(value);
        let lowered = lowercase(text);
        let r = Status::from_normalized(lowered.as_str(), value);
        proof {
            assert forall|st: Status| #[trigger] names_loosely(value@, st) implies r == Ok::<
                Status,
                ParseStatusError,
            >(st) by {
                lemma_folded_name_shape(text@, st);
                lemma_fold_unique(text@, lowered@, st.lower_name());
                lemma_status_named(st);
            }
            assert forall|st: Status| folds_to(value@, #[trigger] st.lower_name()) implies r == Ok::<
                Status,
                ParseStatusError,
            >(st) by {
                lemma_casing_names_status(value@, st);
                assert(names_loosely(value@, st));
            }
            assert forall|st: Status| value@ == #[trigger] st.canonical_name() implies r == Ok::<
                Status,
                ParseStatusError,
            >(st) by {
                lemma_canonical_name_names_status(st);
                assert(names_loosely(value@, st));
            }
            if is_ascii_text(text@) && (forall|st: Status| !names_loosely(value@, st)) {
                if let Some(st) = status_named(lowered@) {
                    assert(lowered@ == st.lower_name());
                    assert(names_loosely(value@, st));
                }
            }
        }
        r
    }
}

impl ParseStatusError {
    /// The rejected text, as it was given.
    pub open spec fn text(self) -> Seq<char> {
        match self {
            ParseStatusError::InvalidStatus { status } => status@,
        }
    }

    /// Explains the error: it quotes the rejected text and lists the names
    /// that are accepted.
    pub fn message(&self) -> (r: String)
        ensures
            r@ == "`"@ + self.text() + "` is not a valid status. Use one of: ToDo, InProgress, Done"@,
    {
        match self {
            ParseStatusError::InvalidStatus { status } => {
                let mut m = String::from_str("`");
                m.append(status.as_str());
                m.append("` is not a valid status. Use one of: ToDo, InProgress, Done");
                m
            },
        }
    }
}

impl TryFrom<&str> for Status {
    type Error = ParseStatusError;

    /// Reads a status from borrowed text, as [`Status::parse`] does.
    fn try_from(value: &str) -> (r: Result<Status, ParseStatusError>)
        ensures
            is_outcome(r, parsed(value@), value@),
            forall|st: Status|
                folds_to(value@, #[trigger] st.lower_name()) ==> r == Ok::<
                    Status,
                    ParseStatusError,
                >(st),
            forall|st: Status|
                #[trigger] names_loosely(value@, st) ==> r == Ok::<Status, ParseStatusError>(st),
            forall|st: Status|
                value@ == #[trigger] st.canonical_name() ==> r == Ok::<Status, ParseStatusError>(
                    st,
                ),
            is_ascii_text(trimmed(value@)) && (forall|st: Status| !names_loosely(value@, st))
                ==> is_outcome(r, None, value@),
    {
        Status::parse(value)
    }
}

/// No spec value stands for the whole outcome, since an error holds a newly
/// made `String`; the contract of `try_from` states the outcome instead.
impl vstd::std_specs::convert::TryFromSpecImpl<&str> for Status {
    open spec fn obeys_try_from_spec() -> bool {
        false
    }

    open spec fn try_from_spec(value: &str) -> Result<Status, ParseStatusError> {
        arbitrary()
    }
}

impl TryFrom<String> for Status {
    type Error = ParseStatusError;

    /// Reads a status from owned text, as [`Status::parse`] does.
    fn try_from(value: String) -> (r: Result<Status, ParseStatusError>)
        ensures
            is_outcome(r, parsed(value@), value@),
            forall|st: Status|
                folds_to(value@, #[trigger] st.lower_name()) ==> r == Ok::<
                    Status,
                    ParseStatusError,
                >(st),
            forall|st: Status|
                #[trigger] names_loosely(value@, st) ==> r == Ok::<Status, ParseStatusError>(st),
            forall|st: Status|
                value@ == #[trigger] st.canonical_name() ==> r == Ok::<Status, ParseStatusError>(
                    st,
                ),
            is_ascii_text(trimmed(value@)) && (forall|st: Status| !names_loosely(value@, st))
                ==> is_outcome(r, None, value@),
    {
        Status::parse(value.as_str())
    }
}

/// No spec value stands for the whole outcome, since an error holds a newly
/// made `String`; the contract of `try_from` states the outcome instead.
impl vstd::std_specs::convert::TryFromSpecImpl<String> for Status {
    open spec fn obeys_try_from_spec() -> bool {
        false
    }

    open spec fn try_from_spec(value: String) -> Result<Status, ParseStatusError> {
        arbitrary()
    }
}

} // verus!
