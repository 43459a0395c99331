//! The server families whose dialects are decoded.

use vstd::prelude::*;

verus! {

/// A family of servers with an HTTP dialect of its own.
#[derive(Debug, Clone, Copy, PartialEq, Eq, Structural)]
pub enum Flavor {
    Mastodon,
    Pleroma,
    Firefish,
}

impl Flavor {
    /// The name under which the flavor is shown, and by which a transport
    /// picks the form of the `Authorization` header.
    pub open spec fn display_name(self) -> Seq<char> {
        match self {
            Flavor::Mastodon => "Mastodon"@,
            Flavor::Pleroma => "Pleroma"@,
            Flavor::Firefish => "Firefish"@,
        }
    }

    /// The flavor's display name.
    pub fn name(self) -> (name: String)
        ensures
            name@ == self.display_name(),
    {
        match self {
            Flavor::Mastodon => "Mastodon".to_owned(),
            Flavor::Pleroma => "Pleroma".to_owned(),
            Flavor::Firefish => "Firefish".to_owned(),
        }
    }
}

} // verus!
