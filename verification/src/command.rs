use vstd::prelude::*;
use crate::error::DispatchError;
use crate::keys::KeyCode;
use crate::text::same_text;

verus! {

/// An action that the remote control can ask for.
#[derive(Clone, Copy, Debug, PartialEq, Eq, Structural)]
pub enum Command {
    PreviousTrack,
    NextTrack,
    TogglePlay,
    VolumeUp,
    VolumeDown,
    VolumeMute,
}

/// The command whose tag is `raw`, if there is one.
pub open spec fn parse(raw: Seq<char>) -> Option<Command> {
    if exists|c: Command| #[trigger] c.tag() == raw {
        Some(choose|c: Command| #[trigger] c.tag() == raw)
    } else {
        None
    }
}

impl Command {
    /// The text that stands for the command on the wire.
    pub open spec fn tag(self) -> Seq<char> {
        match self {
            Command::PreviousTrack => "PreviousTrack"@,
            Command::NextTrack => "NextTrack"@,
            Command::TogglePlay => "TogglePlay"@,
            Command::VolumeUp => "VolumeUp"@,
            Command::VolumeDown => "VolumeDown"@,
            Command::VolumeMute => "VolumeMute"@,
        }
    }

    /// The key that the command strikes.
    pub open spec fn key(self) -> KeyCode {
        match self {
            Command::PreviousTrack => KeyCode::LeftArrow,
            Command::NextTrack => KeyCode::RightArrow,
            Command::TogglePlay => KeyCode::Space,
            Command::VolumeUp => KeyCode::VolumeUp,
            Command::VolumeDown => KeyCode::VolumeDown,
            Command::VolumeMute => KeyCode::VolumeMute,
        }
    }

    /// The command's tag.
    pub fn encode(self) -> (tag: &'static str)
        ensures
            tag@ == self.tag(),
    {
        match self {
            Command::PreviousTrack => "PreviousTrack",
            Command::NextTrack => "NextTrack",
            Command::TogglePlay => "TogglePlay",
            Command::VolumeUp => "VolumeUp",
            Command::VolumeDown => "VolumeDown",
            Command::VolumeMute => "VolumeMute",
        }
    }

    /// The command that `raw` stands for. Text that is no command's tag is
    /// refused, and the error keeps it.
    pub fn decode(raw: &str) -> (r: Result<Command, DispatchError>)
        ensures
            match r {
                Ok(c) => parse(raw@) == Some(c) && c.tag() == raw@,
                Err(e) => parse(raw@) is None && (forall|c: Command| #[trigger] c.tag() != raw@)
                    && e.refuses(raw@),
            },
    {
        let found = if same_text(raw, "PreviousTrack") {
            Some(Command::PreviousTrack)
        } else if same_text(raw, "NextTrack") {
            Some(Command::NextTrack)
        } else if same_text(raw, "TogglePlay") {
            Some(Command::TogglePlay)
        } else if same_text(raw, "VolumeUp") {
            Some(Command::VolumeUp)
        } else if same_text(raw, "VolumeDown") {
            Some(Command::VolumeDown)
        } else if same_text(raw, "VolumeMute") {
            Some(Command::VolumeMute)
        } else {
            None
        };
        match found {
            Some(c) => {
                proof {
                    lemma_round_trip(c);
                }
                Ok(c)
            },
            None => {
                assert forall|c: Command| #[trigger] c.tag() != raw@ by {
                    match c {
                        Command::PreviousTrack => {},
                        Command::NextTrack => {},
                        Command::TogglePlay => {},
                        Command::VolumeUp => {},
                        Command::VolumeDown => {},
                        Command::VolumeMute => {},
                    }
                }
                Err(DispatchError::InvalidCommand { raw: raw.to_owned() })
            },
        }
    }

    /// The key that the command strikes: one key for each command.
    pub fn key_code(self) -> (code: KeyCode)
        ensures
            code == self.key(),
    {
        match self {
            Command::PreviousTrack => KeyCode::LeftArrow,
            Command::NextTrack => KeyCode::RightArrow,
            Command::TogglePlay => KeyCode::Space,
            Command::VolumeUp => KeyCode::VolumeUp,
            Command::VolumeDown => KeyCode::VolumeDown,
            Command::VolumeMute => KeyCode::VolumeMute,
        }
    }
}

impl From<Command> for KeyCode {
    /// The key that `command` strikes.
    fn from(command: Command) -> (code: KeyCode) {
        command.key_code()
    }
}

impl vstd::std_specs::convert::FromSpecImpl<Command> for KeyCode {
    open spec fn obeys_from_spec() -> bool {
        true
    }

    open spec fn from_spec(command: Command) -> KeyCode {
        command.key()
    }
}

/// No two commands share a tag.
pub proof fn lemma_tags_distinct(a: Command, b: Command)
    ensures
        a.tag() == b.tag() ==> a == b,
{
    reveal_strlit("PreviousTrack");
    reveal_strlit("NextTrack");
    reveal_strlit("TogglePlay");
    reveal_strlit("VolumeUp");
    reveal_strlit("VolumeDown");
    reveal_strlit("VolumeMute");
    assert("PreviousTrack"@.len() == 13);
    assert("NextTrack"@.len() == 9);
    assert("TogglePlay"@.len() == 10);
    assert("VolumeUp"@.len() == 8);
    assert("VolumeDown"@.len() == 10);
    assert("VolumeMute"@.len() == 10);
    assert("TogglePlay"@[0] == 'T');
    assert("VolumeDown"@[0] == 'V');
    assert("VolumeMute"@[0] == 'V');
    assert("VolumeDown"@[6] == 'D');
    assert("VolumeMute"@[6] == 'M');
}

/// Decoding undoes encoding: the tag of a command parses to that command.
pub proof fn lemma_round_trip(c: Command)
    ensures
        parse(c.tag()) == Some(c),
{
    let found = choose|d: Command| #[trigger] d.tag() == c.tag();
    lemma_tags_distinct(found, c);
}

/// A text parses to a command exactly when it is that command's tag, and to
/// none exactly when it is no command's tag.
pub proof fn lemma_parse_exact(raw: Seq<char>, c: Command)
    ensures
        parse(raw) == Some(c) <==> c.tag() == raw,
        parse(raw) is None <==> forall|d: Command| #[trigger] d.tag() != raw,
{
    if c.tag() == raw {
        lemma_round_trip(c);
    }
}

/// Each command strikes one key, the same on every call: equal commands give
/// equal keys, and every command has one.
pub proof fn lemma_key_total_deterministic(a: Command, b: Command)
    ensures
        a == b ==> a.key() == b.key(),
        a.key() == KeyCode::LeftArrow || a.key() == KeyCode::RightArrow || a.key()
            == KeyCode::Space || a.key() == KeyCode::VolumeUp || a.key() == KeyCode::VolumeDown
            || a.key() == KeyCode::VolumeMute,
{
}

} // verus!
