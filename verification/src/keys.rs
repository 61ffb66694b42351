use vstd::prelude::*;

verus! {

/// A key of the host keyboard that a command can strike.
#[derive(Clone, Copy, Debug, PartialEq, Eq, Structural)]
pub enum KeyCode {
    LeftArrow,
    RightArrow,
    Space,
    VolumeUp,
    VolumeDown,
    VolumeMute,
}

impl KeyCode {
    /// The key's name as text.
    pub open spec fn name_text(self) -> Seq<char> {
        match self {
            KeyCode::LeftArrow => "LeftArrow"@,
            KeyCode::RightArrow => "RightArrow"@,
            KeyCode::Space => "Space"@,
            KeyCode::VolumeUp => "VolumeUp"@,
            KeyCode::VolumeDown => "VolumeDown"@,
            KeyCode::VolumeMute => "VolumeMute"@,
        }
    }

    /// The key's name, for messages.
    pub fn name(self) -> (text: &'static str)
        ensures
            text@ == self.name_text(),
    {
        match self {
            KeyCode::LeftArrow => "LeftArrow",
            KeyCode::RightArrow => "RightArrow",
            KeyCode::Space => "Space",
            KeyCode::VolumeUp => "VolumeUp",
            KeyCode::VolumeDown => "VolumeDown",
            KeyCode::VolumeMute => "VolumeMute",
        }
    }
}

} // verus!
