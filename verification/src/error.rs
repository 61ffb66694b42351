use vstd::prelude::*;
use vstd::string::StringExecFns;
use crate::host::{init_cause_text, init_cause_words, input_cause_text, input_cause_words};
use crate::keys::KeyCode;

verus! {

/// Why a request to the dispatcher failed.
#[derive(Debug, PartialEq, Eq)]
#[allow(inconsistent_fields)]
pub enum DispatchError {
    /// The transport value is no command's tag; `raw` is that value.
    InvalidCommand { raw: String },
    /// The host's injection channel could not be opened.
    InjectionInitError { cause: enigo::NewConError },
    /// The host did not take the event for `key`.
    InjectionError { key: KeyCode, cause: enigo::InputError },
}

impl DispatchError {
    /// Whether this is the error for the unknown transport value `raw`.
    pub open spec fn refuses(self, raw: Seq<char>) -> bool {
        self matches DispatchError::InvalidCommand { raw: kept } && kept@ == raw
    }

    /// The message for this error when the host describes the cause as
    /// `cause`. An unknown command has no cause on the host's side, and its
    /// message does not use `cause`.
    pub open spec fn message_text(self, cause: Seq<char>) -> Seq<char> {
        match self {
            DispatchError::InvalidCommand { raw } => "Unknown command: "@ + raw@,
            DispatchError::InjectionInitError { .. } => "Injection channel unavailable: "@ + cause,
            DispatchError::InjectionError { key, .. } => "Key "@ + key.name_text()
                + " was not struck: "@ + cause,
        }
    }

    /// The host's description of the cause; empty for an unknown command.
    pub fn cause_text(&self) -> (text: String)
        ensures
            text@ == self.cause_words(),
    {
        match self {
            DispatchError::InvalidCommand { .. } => String::new(),
            DispatchError::InjectionInitError { cause } => init_cause_text(cause),
            DispatchError::InjectionError { cause, .. } => input_cause_text(cause),
        }
    }

    /// The host's words for the cause of this error; none for an unknown
    /// command, which has no cause on the host's side.
    pub open spec fn cause_words(self) -> Seq<char> {
        match self {
            DispatchError::InvalidCommand { .. } => Seq::<char>::empty(),
            DispatchError::InjectionInitError { cause } => init_cause_words(cause),
            DispatchError::InjectionError { cause, .. } => input_cause_words(cause),
        }
    }

    /// The message for this error, with `cause` as the description of the cause.
    pub fn message_with(&self, cause: &str) -> (text: String)
        ensures
            text@ == self.message_text(cause@),
    {
        match self {
            DispatchError::InvalidCommand { raw } => {
                let mut text = String::from_str("Unknown command: ");
                text.append(raw.as_str());
                text
            },
            DispatchError::InjectionInitError { .. } => {
                let mut text = String::from_str("Injection channel unavailable: ");
                text.append(cause);
                text
            },
            DispatchError::InjectionError { key, .. } => {
                let mut text = String::from_str("Key ");
                text.append(key.name());
                text.append(" was not struck: ");
                text.append(cause);
                text
            },
        }
    }

    /// A message for the caller: `message_text` with the host's words for the
    /// cause. For an unknown command the message is fixed by the error alone.
    pub fn message(&self) -> (text: String)
        ensures
            text@ == self.message_text(self.cause_words()),
    {
        let cause = self.cause_text();
        self.message_with(cause.as_str())
    }
}

} // verus!
