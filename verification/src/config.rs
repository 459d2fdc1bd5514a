//! Static configuration the surrounding program is started with. Reading and
//! decoding the configuration file is the surrounding program's job; the
//! engine only holds the decoded values.

use vstd::prelude::*;

verus! {

/// The decoded configuration: the command prefix and the embed colour.
pub struct Config {
    pub discord_prefix: String,
    pub color: [u8; 3],
}

impl Config {
    /// The configured colour as an `(r, g, b)` triple.
    pub fn rgb(&self) -> (r: (u8, u8, u8))
        ensures
            r.0 == self.color[0],
            r.1 == self.color[1],
            r.2 == self.color[2],
    {
        (self.color[0], self.color[1], self.color[2])
    }
}

} // verus!
