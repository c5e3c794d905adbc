use vstd::prelude::*;
use crate::framebuffer::Color;

verus! {

/// How much a message matters, from most to least.
#[derive(Debug, Clone, Copy, PartialEq, Eq, Structural)]
pub enum Level {
    Error,
    Warn,
    Info,
    Debug,
    Trace,
}

impl Level {
    /// Whether messages of this level are shown: those that matter at least
    /// as much as `Info`.
    pub open spec fn is_enabled(self) -> bool {
        self is Error || self is Warn || self is Info
    }

    /// The color in which messages of this level are written.
    pub open spec fn ink(self) -> Color {
        match self {
            Level::Error => Color { red: 255, green: 0, blue: 0 },
            Level::Warn => Color { red: 255, green: 255, blue: 0 },
            Level::Info => Color { red: 0, green: 255, blue: 0 },
            Level::Debug => Color { red: 0, green: 255, blue: 255 },
            Level::Trace => Color { red: 0, green: 255, blue: 0 },
        }
    }

    /// Whether messages of this level are shown.
    pub fn enabled(self) -> (enabled: bool)
        ensures
            enabled == self.is_enabled(),
    {
        match self {
            Level::Error => true,
            Level::Warn => true,
            Level::Info => true,
            Level::Debug => false,
            Level::Trace => false,
        }
    }

    /// The color in which messages of this level are written: red for
    /// errors, yellow for warnings, cyan for debugging, green for the rest.
    pub fn color(self) -> (color: Color)
        ensures
            color == self.ink(),
    {
        match self {
            Level::Error => Color { red: 255, green: 0, blue: 0 },
            Level::Warn => Color { red: 255, green: 255, blue: 0 },
            Level::Info => Color { red: 0, green: 255, blue: 0 },
            Level::Debug => Color { red: 0, green: 255, blue: 255 },
            Level::Trace => Color { red: 0, green: 255, blue: 0 },
        }
    }
}

} // verus!
