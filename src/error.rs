use vstd::prelude::*;

verus! {

/// Which part of the resolution could not be completed.
#[derive(Clone, Copy, Debug, PartialEq, Eq, Structural)]
pub enum ErrorKind {
    /// None of the candidate install roots is an existing directory.
    RootNotFound,
    /// Neither the configuration nor the environment names a target triplet.
    TripletNotDetermined,
}

/// What an `Error` holds, as plain values.
pub ghost struct ErrorModel {
    pub kind: ErrorKind,
    pub tried: Seq<Seq<char>>,
}

/// The views of a sequence of strings.
pub open spec fn strings_view(v: Seq<String>) -> Seq<Seq<char>> {
    v.map_values(|s: String| s@)
}

/// A failed resolution: what could not be determined, and the candidates
/// that were consulted before giving up.
#[derive(Debug)]
pub struct Error {
    kind: ErrorKind,
    tried: Vec<String>,
}

impl View for Error {
    type V = ErrorModel;

    closed spec fn view(&self) -> ErrorModel {
        ErrorModel { kind: self.kind, tried: strings_view(self.tried@) }
    }
}

impl Error {
    /// An error of the given kind, listing what was tried.
    pub fn new(kind: ErrorKind, tried: Vec<String>) -> (r: Error)
        ensures
            r@ == (ErrorModel { kind, tried: strings_view(tried@) }),
    {
        Error { kind, tried }
    }

    /// What could not be determined.
    pub fn kind(&self) -> (r: ErrorKind)
        ensures
            r == self@.kind,
    {
        self.kind
    }

    /// The candidates that were consulted, in the order they were tried.
    pub fn tried(&self) -> (r: &Vec<String>)
        ensures
            strings_view(r@) == self@.tried,
    {
        &self.tried
    }

    /// A short description of the failure.
    pub fn message(&self) -> (r: String)
        ensures
            r@ == kind_message(self@.kind),
    {
        match self.kind {
            ErrorKind::RootNotFound => String::from_str("install root not found"),
            ErrorKind::TripletNotDetermined => String::from_str("triplet not determined"),
        }
    }
}

/// The description of each kind of failure.
pub open spec fn kind_message(kind: ErrorKind) -> Seq<char> {
    match kind {
        ErrorKind::RootNotFound => "install root not found"@,
        ErrorKind::TripletNotDetermined => "triplet not determined"@,
    }
}

} // verus!
