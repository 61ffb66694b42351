use vstd::prelude::*;
use crate::keys::KeyCode;

verus! {

/// The host's input-injection channel, `enigo::Enigo`. Nothing inside it is
/// visible to the proofs.
#[verifier::external_type_specification]
#[verifier::external_body]
pub struct ExEnigo(enigo::Enigo);

/// Why a channel could not be opened, `enigo::NewConError`.
#[verifier::external_type_specification]
#[verifier::external_body]
pub struct ExNewConError(enigo::NewConError);

/// Why a key event was not delivered, `enigo::InputError`.
#[verifier::external_type_specification]
#[verifier::external_body]
pub struct ExInputError(enigo::InputError);

/// Opens a channel with `enigo::Enigo::new` on `enigo::Settings::default()`.
/// Whether that works depends on the session the process runs in, so nothing is
/// claimed of the result.
#[verifier::external_body]
pub(crate) fn open_channel() -> (opened: Result<enigo::Enigo, enigo::NewConError>) {
    enigo::Enigo::new(&enigo::Settings::default())
}

/// Strikes `code` once (press, then release) with `enigo::Keyboard::key` and
/// `enigo::Direction::Click`. The host decides whether the event is delivered,
/// so nothing is claimed of the result, nor of the channel afterwards.
#[verifier::external_body]
pub(crate) fn press_and_release(channel: &mut enigo::Enigo, code: KeyCode) -> (pressed: Result<
    (),
    enigo::InputError,
>) {
    let key = match code {
        KeyCode::LeftArrow => enigo::Key::LeftArrow,
        KeyCode::RightArrow => enigo::Key::RightArrow,
        KeyCode::Space => enigo::Key::Space,
        KeyCode::VolumeUp => enigo::Key::VolumeUp,
        KeyCode::VolumeDown => enigo::Key::VolumeDown,
        KeyCode::VolumeMute => enigo::Key::VolumeMute,
    };
    enigo::Keyboard::key(channel, key, enigo::Direction::Click)
}

/// The words in which `enigo::NewConError`'s `Display` describes `cause`. They
/// are made from the error's variant and the text it carries, and from nothing
/// else.
pub uninterp spec fn init_cause_words(cause: enigo::NewConError) -> Seq<char>;

/// The words in which `enigo::InputError`'s `Display` describes `cause`. They
/// are made from the error's variant and the text it carries, and from nothing
/// else.
pub uninterp spec fn input_cause_words(cause: enigo::InputError) -> Seq<char>;

/// The text that `enigo::NewConError`'s `Display` gives for `cause`: the same
/// words for the same error. What the words are is not stated.
#[verifier::external_body]
pub(crate) fn init_cause_text(cause: &enigo::NewConError) -> (text: String)
    ensures
        text@ == init_cause_words(*cause),
{
    format!("{}", cause)
}

/// The text that `enigo::InputError`'s `Display` gives for `cause`: the same
/// words for the same error. What the words are is not stated.
#[verifier::external_body]
pub(crate) fn input_cause_text(cause: &enigo::InputError) -> (text: String)
    ensures
        text@ == input_cause_words(*cause),
{
    format!("{}", cause)
}

} // verus!
