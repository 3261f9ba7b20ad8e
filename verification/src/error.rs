use vstd::prelude::*;

verus! {

/// The two failure kinds of an encode call.
///
/// `Message` carries an opaque message forwarded verbatim from the
/// structural-traversal layer that feeds values to the encoder; the encoder
/// itself never raises it. `Unsupported` names the kind of a construct the
/// encoder rejects (bytes, sequences, tuples, maps, unit placeholders, and
/// the like).
#[derive(Debug, PartialEq)]
pub enum Error {
    Message(String),
    Unsupported(&'static str),
}

impl Error {
    /// A human-readable description of the error, in place of `Display`.
    pub fn describe(&self) -> (text: String)
        ensures
            match self {
                Error::Message(message) => text@ == message@,
                Error::Unsupported(kind) => text@ == "Unsupported type: "@ + kind@,
            },
    {
        match self {
            Error::Message(message) => message.clone(),
            Error::Unsupported(kind) => {
                let text = String::from_str("Unsupported type: ");
                text.concat(kind)
            },
        }
    }
}

} // verus!
