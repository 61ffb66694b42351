use vstd::prelude::*;
use crate::command::{parse, Command};
use crate::error::DispatchError;
use crate::host::{open_channel, press_and_release};
use crate::keys::KeyCode;

verus! {

/// Strikes keys on the host for commands. It owns the host's injection channel,
/// which is opened when the first command arrives and kept from then on.
/// Every operation that strikes a key takes the dispatcher by `&mut`, so two
/// strikes through one dispatcher cannot overlap.
pub struct Dispatcher {
    channel: Option<enigo::Enigo>,
}

/// What the caller gets once the attempt to open the channel has ended: the
/// channel, or the failure as this library's error.
pub fn settle_open(opened: Result<enigo::Enigo, enigo::NewConError>) -> (r: Result<
    enigo::Enigo,
    DispatchError,
>)
    ensures
        match opened {
            Ok(channel) => r == Ok::<enigo::Enigo, DispatchError>(channel),
            Err(cause) => r == Err::<enigo::Enigo, DispatchError>(
                DispatchError::InjectionInitError { cause },
            ),
        },
{
    match opened {
        Ok(channel) => Ok(channel),
        Err(cause) => Err(DispatchError::InjectionInitError { cause }),
    }
}

/// What the caller gets once the strike of `key` has ended: success, or the
/// failure with the key and the host's cause. Nothing is tried again.
pub fn settle_strike(key: KeyCode, struck: Result<(), enigo::InputError>) -> (r: Result<
    (),
    DispatchError,
>)
    ensures
        match struck {
            Ok(_) => r is Ok,
            Err(cause) => r == Err::<(), DispatchError>(DispatchError::InjectionError { key, cause }),
        },
{
    match struck {
        Ok(_) => Ok(()),
        Err(cause) => Err(DispatchError::InjectionError { key, cause }),
    }
}

/// How the result of dispatching `command` goes with the channel's state before
/// and after, whatever the host did:
/// - success leaves the channel open;
/// - a failure to open the channel comes only when it was not open, and leaves
///   it so, for the next call to try again;
/// - a failed strike names the command's key, and the channel stays open;
/// - an open channel is never closed, and no other error comes.
pub open spec fn dispatched(
    was_open: bool,
    is_open: bool,
    command: Command,
    r: Result<(), DispatchError>,
) -> bool {
    &&& was_open ==> is_open
    &&& match r {
        Ok(_) => is_open,
        Err(DispatchError::InjectionInitError { .. }) => !was_open && !is_open,
        Err(DispatchError::InjectionError { key, .. }) => is_open && key == command.key(),
        Err(DispatchError::InvalidCommand { .. }) => false,
    }
}

impl Dispatcher {
    /// Whether the injection channel has been opened.
    pub closed spec fn open(&self) -> bool {
        self.channel is Some
    }

    /// A dispatcher whose channel is not opened yet.
    pub fn new() -> (d: Dispatcher)
        ensures
            !d.open(),
    {
        Dispatcher { channel: None }
    }

    /// Whether the injection channel has been opened.
    pub fn is_open(&self) -> (b: bool)
        ensures
            b == self.open(),
    {
        self.channel.is_some()
    }

    /// Strikes the key of `command` once, press then release. The channel is
    /// opened first where it is not open yet; if that fails, no key is struck.
    pub fn dispatch(&mut self, command: Command) -> (r: Result<(), DispatchError>)
        ensures
            dispatched(old(self).open(), final(self).open(), command, r),
    {
        let key = command.key_code();
        let mut channel = match self.channel.take() {
            Some(channel) => channel,
            None => match settle_open(open_channel()) {
                Ok(channel) => channel,
                Err(e) => {
                    return Err(e);
                },
            },
        };
        let struck = press_and_release(&mut channel, key);
        self.channel = Some(channel);
        settle_strike(key, struck)
    }

    /// Decodes `raw` and dispatches the command. Text that is no command's tag
    /// is refused with the text in the error, and the dispatcher is not touched:
    /// no channel is opened and no key is struck.
    pub fn dispatch_raw(&mut self, raw: &str) -> (r: Result<(), DispatchError>)
        ensures
            match parse(raw@) {
                Some(command) => dispatched(old(self).open(), final(self).open(), command, r),
                None => *final(self) == *old(self) && r is Err && r->Err_0.refuses(raw@),
            },
    {
        match Command::decode(raw) {
            Ok(command) => self.dispatch(command),
            Err(e) => Err(e),
        }
    }
}

} // verus!
