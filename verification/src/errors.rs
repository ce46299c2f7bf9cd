//! What can go wrong, and how it is told.
use vstd::prelude::*;

verus! {

/// An error of the tool. Causes that come from outside are held as their texts.
#[derive(Debug, Clone, PartialEq, Eq)]
pub enum RsnipError {
    Io(String),
    ConfigParse { path: String, source: String },
    ConfigSerialize(String),
    InvalidConfig { field: &'static str, message: String },
    MissingUserDirectory(&'static str),
    UnknownCommand(String),
    Message(String),
}

impl RsnipError {
    /// The text of the error.
    pub open spec fn text(self) -> Seq<char> {
        match self {
            RsnipError::Io(cause) => "I/O error: "@ + cause@,
            RsnipError::ConfigParse { path, source } => "failed to parse config "@ + path@ + ": "@
                + source@,
            RsnipError::ConfigSerialize(cause) => "failed to serialize config: "@ + cause@,
            RsnipError::InvalidConfig { field, message } => "invalid config value `"@ + field@
                + "`: "@ + message@,
            RsnipError::MissingUserDirectory(name) =>
                "could not resolve a valid user directory for "@ + name@,
            RsnipError::UnknownCommand(name) => "unknown command `"@ + name@ + "`"@,
            RsnipError::Message(message) => message@,
        }
    }

    /// Writes the text of the error.
    pub fn to_string(&self) -> (r: String)
        ensures
            r@ == self.text(),
    {
        match self {
            RsnipError::Io(cause) => {
                let mut out = "I/O error: ".to_owned();
                out.append(cause.as_str());
                out
            },
            RsnipError::ConfigParse { path, source } => {
                let mut out = "failed to parse config ".to_owned();
                out.append(path.as_str());
                out.append(": ");
                out.append(source.as_str());
                out
            },
            RsnipError::ConfigSerialize(cause) => {
                let mut out = "failed to serialize config: ".to_owned();
                out.append(cause.as_str());
                out
            },
            RsnipError::InvalidConfig { field, message } => {
                let mut out = "invalid config value `".to_owned();
                out.append(field);
                out.append("`: ");
                out.append(message.as_str());
                out
            },
            RsnipError::MissingUserDirectory(name) => {
                let mut out = "could not resolve a valid user directory for ".to_owned();
                out.append(name);
                out
            },
            RsnipError::UnknownCommand(name) => {
                let mut out = "unknown command `".to_owned();
                out.append(name.as_str());
                out.append("`");
                out
            },
            RsnipError::Message(message) => message.clone(),
        }
    }
}

/// Whether an error is the plain message `text`.
pub open spec fn is_message(error: RsnipError, text: Seq<char>) -> bool {
    error matches RsnipError::Message(message) && message@ == text
}

/// Whether an error refuses the value of the setting `field` with the reason `text`.
pub open spec fn is_invalid_config(error: RsnipError, field: Seq<char>, text: Seq<char>) -> bool {
    error matches RsnipError::InvalidConfig { field: name, message } && name@ == field && message@
        == text
}

/// Whether a result is the given value, or an error with the given message.
pub open spec fn yields<T>(result: Result<T, RsnipError>, expected: Result<T, Seq<char>>) -> bool {
    match (result, expected) {
        (Ok(value), Ok(wanted)) => value == wanted,
        (Err(error), Err(text)) => is_message(error, text),
        _ => false,
    }
}

/// An error with a fixed message.
pub fn message_error(text: &str) -> (r: RsnipError)
    ensures
        is_message(r, text@),
{
    RsnipError::Message(text.to_owned())
}

/// An error that refuses the value of a setting.
pub fn invalid_config(field: &'static str, text: &str) -> (r: RsnipError)
    ensures
        is_invalid_config(r, field@, text@),
{
    RsnipError::InvalidConfig { field, message: text.to_owned() }
}

} // verus!
