use vstd::prelude::*;

verus! {

/// A Unicode version, ordered by major number first and then by minor number.
#[derive(Clone, Copy, Debug, PartialEq, Eq, Structural)]
pub struct UnicodeVersion {
    pub major: u32,
    pub minor: u32,
}

impl UnicodeVersion {
    /// `self` comes strictly before `other`: major first, then minor.
    pub open spec fn precedes(self, other: UnicodeVersion) -> bool {
        self.major < other.major || (self.major == other.major && self.minor < other.minor)
    }

    pub fn new(major: u32, minor: u32) -> (r: UnicodeVersion)
        ensures
            r.major == major,
            r.minor == minor,
    {
        UnicodeVersion { major, minor }
    }

    pub fn is_before(&self, other: &UnicodeVersion) -> (r: bool)
        ensures
            r == self.precedes(*other),
    {
        self.major < other.major || (self.major == other.major && self.minor < other.minor)
    }
}

} // verus!
