use vstd::prelude::*;

verus! {

/// Why a record could not be initialized.
#[derive(Debug, Clone, PartialEq, Eq)]
pub enum Error {
    /// The environment variable was not set and there was no default. Holds the variable name.
    MissingEnv(String),
    /// The environment value could not be parsed as the field's type. Holds the (variable name, value).
    EnvParse(String, String),
    /// The default could not be parsed as the field's type. Holds the (field name, default text).
    DefaultParse(String, String),
}

/// Mathematical model of an [`Error`].
pub enum ErrorView {
    MissingEnv(Seq<char>),
    EnvParse(Seq<char>, Seq<char>),
    DefaultParse(Seq<char>, Seq<char>),
}

impl View for Error {
    type V = ErrorView;

    open spec fn view(&self) -> ErrorView {
        match self {
            Error::MissingEnv(name) => ErrorView::MissingEnv(name@),
            Error::EnvParse(name, value) => ErrorView::EnvParse(name@, value@),
            Error::DefaultParse(name, value) => ErrorView::DefaultParse(name@, value@),
        }
    }
}

/// The human-readable message of an error.
pub open spec fn message_of(e: ErrorView) -> Seq<char> {
    match e {
        ErrorView::MissingEnv(name) => "Environment variable ("@ + name + ") is missing"@,
        ErrorView::EnvParse(name, value) => "Failed to parse environment variable ("@ + name
            + ") value ("@ + value + ")"@,
        ErrorView::DefaultParse(name, value) => "Failed to parse field ("@ + name
            + ") default value ("@ + value + ")"@,
    }
}

impl Error {
    /// The message that describes this error to a person.
    pub fn message(&self) -> (r: String)
        ensures
            r@ == message_of(self@),
    {
        match self {
            Error::MissingEnv(name) => {
                let mut s = String::from_str("Environment variable (");
                s.append(name.as_str());
                s.append(") is missing");
                s
            },
            Error::EnvParse(name, value) => {
                let mut s = String::from_str("Failed to parse environment variable (");
                s.append(name.as_str());
                s.append(") value (");
                s.append(value.as_str());
                s.append(")");
                s
            },
            Error::DefaultParse(name, value) => {
                let mut s = String::from_str("Failed to parse field (");
                s.append(name.as_str());
                s.append(") default value (");
                s.append(value.as_str());
                s.append(")");
                s
            },
        }
    }
}

} // verus!
