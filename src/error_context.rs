use vstd::prelude::*;

verus! {

/// A recorded failure: what went wrong, and where it was noticed.
pub struct ErrorContext {
    pub message: String,
    pub location: String,
}

/// The text reported for an error recorded with `message` at `location`.
pub open spec fn error_report(message: Seq<char>, location: Seq<char>) -> Seq<char> {
    message + " (at "@ + location + ")"@
}

/// The last error of one execution context. Recording replaces the previous
/// error; only an explicit `clear_error` removes it.
pub struct ErrorStore {
    last: Option<ErrorContext>,
}

impl View for ErrorStore {
    /// The message and location of the last error, if any.
    type V = Option<(Seq<char>, Seq<char>)>;

    closed spec fn view(&self) -> Option<(Seq<char>, Seq<char>)> {
        match self.last {
            Some(c) => Some((c.message@, c.location@)),
            None => None,
        }
    }
}

impl ErrorStore {
    /// A store holding no error.
    pub fn new() -> (r: ErrorStore)
        ensures
            r@ == None::<(Seq<char>, Seq<char>)>,
    {
        ErrorStore { last: None }
    }

    /// Records an error, replacing whatever was recorded before.
    pub fn set_error(&mut self, message: &str, location: &str)
        ensures
            final(self)@ == Some((message@, location@)),
    {
        self.last = Some(
            ErrorContext {
                message: String::from_str(message),
                location: String::from_str(location),
            },
        );
    }

    /// Removes the recorded error.
    pub fn clear_error(&mut self)
        ensures
            final(self)@ == None::<(Seq<char>, Seq<char>)>,
    {
        self.last = None;
    }

    /// The last error as `"<message> (at <location>)"`, or `None` if none is recorded.
    pub fn get_last_error_string(&self) -> (r: Option<String>)
        ensures
            match self@ {
                Some((m, l)) => r is Some && r->0@ == error_report(m, l),
                None => r is None,
            },
    {
        match &self.last {
            Some(ctx) => {
                let mut text = String::from_str(ctx.message.as_str());
                text.append(" (at ");
                text.append(ctx.location.as_str());
                text.append(")");
                Some(text)
            },
            None => None,
        }
    }
}

/// The report of a recorded error is never empty: it holds the message, the
/// location and six characters of its own.
pub proof fn lemma_error_report_nonempty(message: Seq<char>, location: Seq<char>)
    ensures
        error_report(message, location).len() > 0,
        error_report(message, location).len() == message.len() + location.len() + 6,
{
    reveal_strlit(" (at ");
    reveal_strlit(")");
}

} // verus!
