//! Ticket records built from raw text, with every field checked on the way in.
use vstd::prelude::*;

pub mod status;

verus! {

use crate::status::{ParseStatusError, Status, parse_status, parse_status_message, status_name};
use vstd::utf8::{encode_scalar, encode_utf8};

/// The most bytes a title may take.
pub const MAX_TITLE_BYTES: usize = 50;

/// The most bytes a description may take.
pub const MAX_DESCRIPTION_BYTES: usize = 500;

/// The number of bytes that `s` takes in UTF-8.
pub open spec fn byte_len(s: Seq<char>) -> nat {
    encode_utf8(s).len()
}

/// A title is non-empty and at most `MAX_TITLE_BYTES` bytes long.
pub open spec fn valid_title(title: Seq<char>) -> bool {
    0 < title.len() && byte_len(title) <= MAX_TITLE_BYTES
}

/// A description is non-empty and at most `MAX_DESCRIPTION_BYTES` bytes long.
pub open spec fn valid_description(description: Seq<char>) -> bool {
    0 < description.len() && byte_len(description) <= MAX_DESCRIPTION_BYTES
}

/// A ticket's fields as plain values.
pub struct TicketView {
    pub title: Seq<char>,
    pub description: Seq<char>,
    pub status: Status,
}

/// Why a ticket could not be built, as plain values.
pub enum TicketNewErrorView {
    TitleCannotBeEmpty,
    TitleTooLong,
    DescriptionCannotBeEmpty,
    DescriptionTooLong,
    InvalidStatus(Seq<char>),
}

/// What building a ticket from these three texts comes to: the first check
/// that fails, in the order title, description, status, or else the ticket.
pub open spec fn new_outcome(title: Seq<char>, description: Seq<char>, status: Seq<char>) -> Result<
    TicketView,
    TicketNewErrorView,
> {
    if title.len() == 0 {
        Err(TicketNewErrorView::TitleCannotBeEmpty)
    } else if byte_len(title) > MAX_TITLE_BYTES {
        Err(TicketNewErrorView::TitleTooLong)
    } else if description.len() == 0 {
        Err(TicketNewErrorView::DescriptionCannotBeEmpty)
    } else if byte_len(description) > MAX_DESCRIPTION_BYTES {
        Err(TicketNewErrorView::DescriptionTooLong)
    } else {
        match parse_status(status) {
            Some(s) => Ok(TicketView { title, description, status: s }),
            None => Err(TicketNewErrorView::InvalidStatus(status)),
        }
    }
}

/// The message that each error renders to.
pub open spec fn error_message(e: TicketNewErrorView) -> Seq<char> {
    match e {
        TicketNewErrorView::TitleCannotBeEmpty => "Title cannot be empty"@,
        TicketNewErrorView::TitleTooLong => "Title cannot be longer than 50 bytes"@,
        TicketNewErrorView::DescriptionCannotBeEmpty => "Description cannot be empty"@,
        TicketNewErrorView::DescriptionTooLong => "Description cannot be longer than 500 bytes"@,
        TicketNewErrorView::InvalidStatus(input) => parse_status_message(input),
    }
}

/// Why a ticket could not be built.
#[derive(Debug)]
pub enum TicketNewError {
    TitleCannotBeEmpty,
    TitleTooLong,
    DescriptionCannotBeEmpty,
    DescriptionTooLong,
    InvalidStatus(ParseStatusError),
}

impl View for TicketNewError {
    type V = TicketNewErrorView;

    open spec fn view(&self) -> TicketNewErrorView {
        match self {
            TicketNewError::TitleCannotBeEmpty => TicketNewErrorView::TitleCannotBeEmpty,
            TicketNewError::TitleTooLong => TicketNewErrorView::TitleTooLong,
            TicketNewError::DescriptionCannotBeEmpty => TicketNewErrorView::DescriptionCannotBeEmpty,
            TicketNewError::DescriptionTooLong => TicketNewErrorView::DescriptionTooLong,
            TicketNewError::InvalidStatus(e) => TicketNewErrorView::InvalidStatus(e@),
        }
    }
}

impl TicketNewError {
    /// Renders the error for a reader; a status error renders as its own message.
    pub fn to_string(&self) -> (r: String)
        ensures
            r@ == error_message(self@),
    {
        match self {
            TicketNewError::TitleCannotBeEmpty => String::from_str("Title cannot be empty"),
            TicketNewError::TitleTooLong => String::from_str("Title cannot be longer than 50 bytes"),
            TicketNewError::DescriptionCannotBeEmpty => String::from_str(
                "Description cannot be empty",
            ),
            TicketNewError::DescriptionTooLong => String::from_str(
                "Description cannot be longer than 500 bytes",
            ),
            TicketNewError::InvalidStatus(e) => e.to_string(),
        }
    }

    /// The error that caused this one: the status error for an invalid status,
    /// nothing for the other kinds.
    pub fn source(&self) -> (r: Option<&ParseStatusError>)
        ensures
            match self {
                TicketNewError::InvalidStatus(e) => r == Some(e),
                _ => r is None,
            },
    {
        match self {
            TicketNewError::InvalidStatus(e) => Some(e),
            _ => None,
        }
    }
}

/// A ticket whose title and description have passed their checks.
#[derive(Debug)]
pub struct Ticket {
    title: String,
    description: String,
    status: Status,
}

impl View for Ticket {
    type V = TicketView;

    closed spec fn view(&self) -> TicketView {
        TicketView { title: self.title@, description: self.description@, status: self.status }
    }
}

impl Clone for Ticket {
    fn clone(&self) -> (r: Self)
        ensures
            r@ == self@,
    {
        proof {
            use_type_invariant(self);
        }
        Ticket {
            title: self.title.clone(),
            description: self.description.clone(),
            status: self.status,
        }
    }
}

impl PartialEq for Ticket {
    fn eq(&self, other: &Ticket) -> (r: bool) {
        self.title == other.title && self.description == other.description && self.status
            == other.status
    }
}

impl vstd::std_specs::cmp::PartialEqSpecImpl for Ticket {
    open spec fn obeys_eq_spec() -> bool {
        true
    }

    open spec fn eq_spec(&self, other: &Ticket) -> bool {
        self@ == other@
    }
}

/// The plain values of a construction's result.
pub open spec fn outcome_view(r: Result<Ticket, TicketNewError>) -> Result<
    TicketView,
    TicketNewErrorView,
> {
    match r {
        Ok(t) => Ok(t@),
        Err(e) => Err(e@),
    }
}

impl Ticket {
    #[verifier::type_invariant]
    spec fn fields_valid(&self) -> bool {
        valid_title(self.title@) && valid_description(self.description@)
    }

    /// Builds a ticket, or reports the first check that fails: an empty title,
    /// a title over `MAX_TITLE_BYTES` bytes, an empty description, a description
    /// over `MAX_DESCRIPTION_BYTES` bytes, or a status that does not parse.
    pub fn new(title: String, description: String, status: String) -> (r: Result<Self, TicketNewError>)
        ensures
            outcome_view(r) == new_outcome(title@, description@, status@),
    {
        if title.as_str().is_empty() {
            return Err(TicketNewError::TitleCannotBeEmpty);
        }
        if title.as_str().as_bytes().len() > MAX_TITLE_BYTES {
            return Err(TicketNewError::TitleTooLong);
        }
        if description.as_str().is_empty() {
            return Err(TicketNewError::DescriptionCannotBeEmpty);
        }
        if description.as_str().as_bytes().len() > MAX_DESCRIPTION_BYTES {
            return Err(TicketNewError::DescriptionTooLong);
        }
        let status = match Status::parse(status) {
            Ok(s) => s,
            Err(error) => return Err(TicketNewError::InvalidStatus(error)),
        };
        Ok(Ticket { title, description, status })
    }

    /// The ticket's title, which is never empty nor over `MAX_TITLE_BYTES` bytes.
    pub fn title(&self) -> (r: &str)
        ensures
            r@ == self@.title,
            valid_title(r@),
    {
        proof {
            use_type_invariant(self);
        }
        self.title.as_str()
    }

    /// The ticket's description, which is never empty nor over
    /// `MAX_DESCRIPTION_BYTES` bytes.
    pub fn description(&self) -> (r: &str)
        ensures
            r@ == self@.description,
            valid_description(r@),
    {
        proof {
            use_type_invariant(self);
        }
        self.description.as_str()
    }

    /// The ticket's status.
    pub fn status(&self) -> (r: Status)
        ensures
            r == self@.status,
    {
        self.status
    }
}

/// Text is empty exactly when its UTF-8 encoding is.
pub proof fn lemma_byte_len_zero(s: Seq<char>)
    ensures
        (byte_len(s) == 0) == (s.len() == 0),
{
    if s.len() > 0 {
        assert(encode_scalar(s[0] as u32).len() > 0);
    }
}

/// A title of 1 to `MAX_TITLE_BYTES` bytes, a description of 1 to
/// `MAX_DESCRIPTION_BYTES` bytes and the name of a status make a ticket that
/// holds exactly these values.
pub proof fn lemma_valid_fields_accepted(title: Seq<char>, description: Seq<char>, s: Status)
    requires
        1 <= byte_len(title) <= MAX_TITLE_BYTES,
        1 <= byte_len(description) <= MAX_DESCRIPTION_BYTES,
    ensures
        new_outcome(title, description, status_name(s)) == Ok::<
            TicketView,
            TicketNewErrorView,
        >(TicketView { title, description, status: s }),
{
    lemma_byte_len_zero(title);
    lemma_byte_len_zero(description);
    lemma_status_name_parses(s);
}

/// Each status's name parses back to that status.
pub proof fn lemma_status_name_parses(s: Status)
    ensures
        parse_status(status_name(s)) == Some(s),
{
    reveal_strlit("ToDo");
    reveal_strlit("InProgress");
    reveal_strlit("Done");
    assert(status_name(Status::ToDo).len() != status_name(Status::InProgress).len());
    assert(status_name(Status::ToDo)[0] != status_name(Status::Done)[0]);
    assert(status_name(Status::InProgress).len() != status_name(Status::Done).len());
}

/// An empty title is reported as such, whatever the other two texts are.
pub proof fn lemma_empty_title_rejected(description: Seq<char>, status: Seq<char>)
    ensures
        new_outcome(Seq::empty(), description, status) == Err::<
            TicketView,
            TicketNewErrorView,
        >(TicketNewErrorView::TitleCannotBeEmpty),
{
}

/// A title over `MAX_TITLE_BYTES` bytes is too long; one of exactly
/// `MAX_TITLE_BYTES` bytes is accepted beside a valid description and status.
pub proof fn lemma_title_byte_limit(title: Seq<char>, description: Seq<char>, status: Seq<char>)
    ensures
        byte_len(title) > MAX_TITLE_BYTES ==> new_outcome(title, description, status) == Err::<
            TicketView,
            TicketNewErrorView,
        >(TicketNewErrorView::TitleTooLong),
        byte_len(title) == MAX_TITLE_BYTES && valid_description(description) && parse_status(
            status,
        ) is Some ==> new_outcome(title, description, status) is Ok,
{
    lemma_byte_len_zero(title);
}

/// Beside a valid title, an empty description, and one over
/// `MAX_DESCRIPTION_BYTES` bytes, are reported as such; one of exactly
/// `MAX_DESCRIPTION_BYTES` bytes is accepted beside a valid status.
pub proof fn lemma_description_byte_limit(
    title: Seq<char>,
    description: Seq<char>,
    status: Seq<char>,
)
    requires
        valid_title(title),
    ensures
        description.len() == 0 ==> new_outcome(title, description, status) == Err::<
            TicketView,
            TicketNewErrorView,
        >(TicketNewErrorView::DescriptionCannotBeEmpty),
        byte_len(description) > MAX_DESCRIPTION_BYTES ==> new_outcome(title, description, status)
            == Err::<TicketView, TicketNewErrorView>(TicketNewErrorView::DescriptionTooLong),
        byte_len(description) == MAX_DESCRIPTION_BYTES && parse_status(status) is Some
            ==> new_outcome(title, description, status) is Ok,
{
    lemma_byte_len_zero(description);
}

/// Beside a valid title and description, text that names no status is
/// reported with that text, and renders as the status error's own message.
pub proof fn lemma_unknown_status_rejected(
    title: Seq<char>,
    description: Seq<char>,
    status: Seq<char>,
)
    requires
        valid_title(title),
        valid_description(description),
        parse_status(status) is None,
    ensures
        new_outcome(title, description, status) == Err::<TicketView, TicketNewErrorView>(
            TicketNewErrorView::InvalidStatus(status),
        ),
        error_message(TicketNewErrorView::InvalidStatus(status)) == parse_status_message(status),
{
}

/// The checks in the order they are made: `k` is 0 for an empty title, 1 for a
/// title over the limit, 2 for an empty description, 3 for a description over
/// the limit, 4 for text that names no status.
pub open spec fn check_fails(k: nat, title: Seq<char>, description: Seq<char>, status: Seq<char>) -> bool {
    if k == 0 {
        title.len() == 0
    } else if k == 1 {
        byte_len(title) > MAX_TITLE_BYTES
    } else if k == 2 {
        description.len() == 0
    } else if k == 3 {
        byte_len(description) > MAX_DESCRIPTION_BYTES
    } else if k == 4 {
        parse_status(status) is None
    } else {
        false
    }
}

/// The place in the order of checks of the check that `e` reports.
pub open spec fn check_of(e: TicketNewErrorView) -> nat {
    match e {
        TicketNewErrorView::TitleCannotBeEmpty => 0,
        TicketNewErrorView::TitleTooLong => 1,
        TicketNewErrorView::DescriptionCannotBeEmpty => 2,
        TicketNewErrorView::DescriptionTooLong => 3,
        TicketNewErrorView::InvalidStatus(_) => 4,
    }
}

/// However many checks fail together, the one reported is the earliest in the
/// order of checks; when none fails, a ticket is built.
pub proof fn lemma_earliest_failure_reported(
    title: Seq<char>,
    description: Seq<char>,
    status: Seq<char>,
)
    ensures
        new_outcome(title, description, status) matches Err(e) ==> {
            &&& check_fails(check_of(e), title, description, status)
            &&& forall|k: nat| k < check_of(e) ==> !check_fails(k, title, description, status)
        },
        new_outcome(title, description, status) is Ok <==> forall|k: nat|
            !check_fails(k, title, description, status),
{
    let r = new_outcome(title, description, status);
    if r is Ok {
        assert forall|k: nat| !check_fails(k, title, description, status) by {}
    } else {
        assert(!check_fails(check_of(r->Err_0), title, description, status) ==> false);
    }
}

/// The same three texts always come to the same result: nothing but the
/// inputs decides it.
pub proof fn lemma_same_inputs_same_outcome(
    title: Seq<char>,
    description: Seq<char>,
    status: Seq<char>,
    first: Result<Ticket, TicketNewError>,
    second: Result<Ticket, TicketNewError>,
)
    requires
        outcome_view(first) == new_outcome(title, description, status),
        outcome_view(second) == new_outcome(title, description, status),
    ensures
        outcome_view(first) == outcome_view(second),
        first matches Ok(a) ==> second matches Ok(b) && a@ == b@,
{
}

} // verus!
