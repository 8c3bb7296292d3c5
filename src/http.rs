use vstd::prelude::*;

verus! {

/// The body of the liveness answer.
#[derive(Clone, Copy, Debug, PartialEq, Eq, Structural)]
pub struct StatusBody {
    pub up: bool,
}

/// The body of an answer that reports a failure.
#[derive(Clone, Debug, PartialEq, Eq)]
pub struct ErrorBody {
    pub error: String,
}

/// An answer: a failure with its message, or a value.
#[derive(Clone, Debug)]
pub enum Responses<T> {
    Bad(ErrorBody),
    Good(T),
}

impl<T> Responses<T> {
    /// A failure carrying the message `s`.
    pub fn bad(s: String) -> (r: Responses<T>)
        ensures
            r matches Responses::Bad(b) && b.error@ == s@,
    {
        Responses::Bad(ErrorBody { error: s })
    }

    /// A success carrying `t`.
    pub fn good(t: T) -> (r: Responses<T>)
        ensures
            r == Responses::<T>::Good(t),
    {
        Responses::Good(t)
    }
}

/// The liveness answer: the service is up.
pub fn index() -> (r: StatusBody)
    ensures
        r.up,
{
    StatusBody { up: true }
}

/// The body answered for a path that names nothing.
pub fn not_found_handler() -> (r: String)
    ensures
        r@ == "{\"error:\": \"In Rust, not found.\"}"@,
{
    "{\"error:\": \"In Rust, not found.\"}".to_owned()
}

/// Logs each answer together with the request it answers.
#[derive(Clone, Copy, Debug, PartialEq, Eq, Structural)]
pub struct AutoLogger;

impl AutoLogger {
    /// The name the logger registers under.
    pub fn name(&self) -> (r: &'static str)
        ensures
            r@ == "AutoLogger"@,
    {
        "AutoLogger"
    }

    /// What the log line shows of an answer's body: the body where it could
    /// be read, a placeholder where it could not.
    pub fn body_message(body: Option<String>) -> (r: String)
        ensures
            match body {
                Some(b) => r@ == b@,
                None => r@ == "(no body)"@,
            },
    {
        match body {
            Some(b) => b,
            None => "(no body)".to_owned(),
        }
    }

    /// Whether an answer with this status code is logged as a normal one
    /// rather than as a warning.
    pub fn is_ok_status(code: u16) -> (r: bool)
        ensures
            r == (code == 200),
    {
        code == 200
    }
}

} // verus!
