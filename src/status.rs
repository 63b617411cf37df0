use vstd::prelude::*;

verus! {

/// Where a ticket stands in its lifecycle.
#[derive(Debug, Clone, Copy, PartialEq, Eq, Structural)]
pub enum Status {
    ToDo,
    InProgress,
    Done,
}

/// The text under which each status is accepted.
pub open spec fn status_name(s: Status) -> Seq<char> {
    match s {
        Status::ToDo => "ToDo"@,
        Status::InProgress => "InProgress"@,
        Status::Done => "Done"@,
    }
}

/// The status that `text` names, if any.
pub open spec fn parse_status(text: Seq<char>) -> Option<Status> {
    if text == status_name(Status::ToDo) {
        Some(Status::ToDo)
    } else if text == status_name(Status::InProgress) {
        Some(Status::InProgress)
    } else if text == status_name(Status::Done) {
        Some(Status::Done)
    } else {
        None
    }
}

/// The message that reports `input` as no status.
pub open spec fn parse_status_message(input: Seq<char>) -> Seq<char> {
    "`"@ + input + "` is not a valid status. Use one of: ToDo, InProgress, Done"@
}

/// The text given for a status was none of the accepted ones.
#[derive(Debug)]
pub struct ParseStatusError {
    invalid_status: String,
}

impl View for ParseStatusError {
    type V = Seq<char>;

    /// The rejected text.
    closed spec fn view(&self) -> Seq<char> {
        self.invalid_status@
    }
}

impl ParseStatusError {
    /// The rejected text.
    pub fn invalid_status(&self) -> (r: &str)
        ensures
            r@ == self@,
    {
        self.invalid_status.as_str()
    }

    /// Renders the error for a reader.
    pub fn to_string(&self) -> (r: String)
        ensures
            r@ == parse_status_message(self@),
    {
        let mut r = String::from_str("`");
        r.append(self.invalid_status.as_str());
        r.append("` is not a valid status. Use one of: ToDo, InProgress, Done");
        r
    }
}

/// Whether `a` and `b` hold the same characters.
fn same_chars(a: &str, b: &str) -> (r: bool)
    ensures
        r == (a@ == b@),
{
    let n = a.unicode_len();
    if n != b.unicode_len() {
        return false;
    }
    let mut i: usize = 0;
    while i < n
        invariant
            n == a@.len(),
            n == b@.len(),
            i <= n,
            forall|j: int| 0 <= j < i ==> a@[j] == b@[j],
        decreases n - i,
    {
        if a.get_char(i) != b.get_char(i) {
            return false;
        }
        i = i + 1;
    }
    assert(a@ =~= b@);
    true
}

impl Status {
    /// Reads a status from its name; any other text is an error that keeps the text.
    pub fn parse(value: String) -> (r: Result<Status, ParseStatusError>)
        ensures
            match parse_status(value@) {
                Some(s) => r == Ok::<Status, ParseStatusError>(s),
                None => r matches Err(e) && e@ == value@,
            },
    {
        if same_chars(value.as_str(), "ToDo") {
            Ok(Status::ToDo)
        } else if same_chars(value.as_str(), "InProgress") {
            Ok(Status::InProgress)
        } else if same_chars(value.as_str(), "Done") {
            Ok(Status::Done)
        } else {
            Err(ParseStatusError { invalid_status: value })
        }
    }
}

} // verus!
