use vstd::prelude::*;

verus! {

/// The mathematical value of an [`Error`]: variable names and paths as
/// character sequences.
pub enum ErrorView {
    HomeNotSet,
    NotAbsolutePath { key: Seq<char>, path: Seq<char> },
}

/// An error that can occur while resolving the base directories.
#[derive(Debug)]
pub enum Error {
    /// The `HOME` variable is not set or is empty.
    HomeNotSet,
    /// A variable that must hold an absolute path holds a relative one.
    /// The fields are the variable's name and the offending path.
    NotAbsolutePath(String, String),
}

impl View for Error {
    type V = ErrorView;

    open spec fn view(&self) -> ErrorView {
        match self {
            Error::HomeNotSet => ErrorView::HomeNotSet,
            Error::NotAbsolutePath(key, path) => ErrorView::NotAbsolutePath {
                key: key@,
                path: path@,
            },
        }
    }
}

impl PartialEq for Error {
    fn eq(&self, other: &Error) -> (r: bool) {
        match (self, other) {
            (Error::HomeNotSet, Error::HomeNotSet) => true,
            (Error::NotAbsolutePath(key, path), Error::NotAbsolutePath(other_key, other_path)) => (
                *key == *other_key && *path == *other_path
            ),
            _ => false,
        }
    }
}

impl vstd::std_specs::cmp::PartialEqSpecImpl for Error {
    open spec fn obeys_eq_spec() -> bool {
        true
    }

    open spec fn eq_spec(&self, other: &Error) -> bool {
        self@ == other@
    }
}

/// The human-readable rendering of an error value.
pub open spec fn spec_render(e: ErrorView) -> Seq<char> {
    match e {
        ErrorView::HomeNotSet => "$HOME is not set or empty"@,
        ErrorView::NotAbsolutePath { key, path } => (
            key + "=\""@ + path + "\" is not absolute path"@
        ),
    }
}

impl Error {
    /// Renders the error as its diagnostic message.
    pub fn render(&self) -> (r: String)
        ensures
            r@ == spec_render(self@),
    {
        match self {
            Error::HomeNotSet => "$HOME is not set or empty".to_owned(),
            Error::NotAbsolutePath(key, path) => key
                .clone()
                .concat("=\"")
                .concat(path.as_str())
                .concat("\" is not absolute path"),
        }
    }
}

} // verus!
