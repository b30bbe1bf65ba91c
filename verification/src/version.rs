//! Version numbers of the library and of the package.

use vstd::prelude::*;

use crate::text::{decimal, push_char, push_decimal};

verus! {

/// Version information, in the format of <major>.<minor>.<patch>.
#[derive(Debug, Clone, Copy)]
pub struct Version {
    /// Version major number.
    pub major: u32,
    /// Version minor number.
    pub minor: u32,
    /// Version patch number.
    pub patch: u32,
}

impl Default for Version {
    fn default() -> (v: Version)
        ensures
            v.major == 0 && v.minor == 0 && v.patch == 0,
    {
        Version { major: 0, minor: 0, patch: 0 }
    }
}

/// The text of a version: "v", then the three numbers in base ten
/// separated by dots.
pub open spec fn version_text(major: u32, minor: u32, patch: u32) -> Seq<char> {
    seq!['v'] + decimal(major as nat) + seq!['.'] + decimal(minor as nat) + seq!['.'] + decimal(
        patch as nat,
    )
}

impl Version {
    /// Returns the text of the version, such as "v0.5.2".
    pub fn to_text(&self) -> (s: String)
        ensures
            s@ == version_text(self.major, self.minor, self.patch),
    {
        let mut s = String::new();
        push_char(&mut s, 'v');
        push_decimal(&mut s, self.major as u64);
        push_char(&mut s, '.');
        push_decimal(&mut s, self.minor as u64);
        push_char(&mut s, '.');
        push_decimal(&mut s, self.patch as u64);
        assert(s@ =~= version_text(self.major, self.minor, self.patch));
        s
    }
}

} // verus!
