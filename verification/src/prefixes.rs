//! The destinations that an upload can be addressed to.

use vstd::prelude::*;
use crate::text::str_eq;

verus! {

/// A destination category. `Unknown` stands for every token that names
/// none of the others.
#[derive(Debug, PartialEq, Eq, Clone, Copy, Hash, Structural)]
pub enum Prefix {
    ServerPicture,
    ServerBanner,
    ProfilePicture,
    MessageAttachment,
    Unknown,
}

/// The destination that the token `s` names.
pub open spec fn prefix_named(s: Seq<char>) -> Prefix {
    if s == "server_picture"@ {
        Prefix::ServerPicture
    } else if s == "server_banner"@ {
        Prefix::ServerBanner
    } else if s == "profile_picture"@ {
        Prefix::ProfilePicture
    } else if s == "message_attachment"@ {
        Prefix::MessageAttachment
    } else {
        Prefix::Unknown
    }
}

impl Prefix {
    /// The number that stands for the destination where destinations are
    /// keys: each has its own.
    pub open spec fn code(self) -> u8 {
        match self {
            Prefix::ServerPicture => 0,
            Prefix::ServerBanner => 1,
            Prefix::ProfilePicture => 2,
            Prefix::MessageAttachment => 3,
            Prefix::Unknown => 4,
        }
    }

    /// The number that stands for the destination where destinations are
    /// keys.
    pub fn index(&self) -> (r: u8)
        ensures
            r == self.code(),
    {
        match self {
            Prefix::ServerPicture => 0,
            Prefix::ServerBanner => 1,
            Prefix::ProfilePicture => 2,
            Prefix::MessageAttachment => 3,
            Prefix::Unknown => 4,
        }
    }

    /// The token that names the destination.
    pub open spec fn token(self) -> Seq<char> {
        match self {
            Prefix::ServerPicture => "server_picture"@,
            Prefix::ServerBanner => "server_banner"@,
            Prefix::ProfilePicture => "profile_picture"@,
            Prefix::MessageAttachment => "message_attachment"@,
            Prefix::Unknown => "unknown"@,
        }
    }

    /// The token that names the destination.
    pub fn as_str(&self) -> (r: &str)
        ensures
            r@ == self.token(),
    {
        match self {
            Prefix::ServerPicture => "server_picture",
            Prefix::ServerBanner => "server_banner",
            Prefix::ProfilePicture => "profile_picture",
            Prefix::MessageAttachment => "message_attachment",
            Prefix::Unknown => "unknown",
        }
    }

    /// Each destination is the one that its own token names.
    pub proof fn lemma_token_names_it(self)
        ensures
            prefix_named(self.token()) == self,
    {
        reveal_strlit("server_picture");
        reveal_strlit("server_banner");
        reveal_strlit("profile_picture");
        reveal_strlit("message_attachment");
        reveal_strlit("unknown");
        let t = self.token();
        match self {
            Prefix::ServerPicture => {},
            Prefix::ServerBanner => {
                assert(t.len() != "server_picture"@.len());
            },
            Prefix::ProfilePicture => {
                assert(t[0] != "server_banner"@[0]);
            },
            Prefix::MessageAttachment => {
                assert(t[0] != "profile_picture"@[0]);
            },
            Prefix::Unknown => {
                assert(t[0] != "message_attachment"@[0]);
            },
        }
    }
}

impl From<&str> for Prefix {
    fn from(s: &str) -> (r: Self) {
        if str_eq(s, "server_picture") {
            Prefix::ServerPicture
        } else if str_eq(s, "server_banner") {
            Prefix::ServerBanner
        } else if str_eq(s, "profile_picture") {
            Prefix::ProfilePicture
        } else if str_eq(s, "message_attachment") {
            Prefix::MessageAttachment
        } else {
            Prefix::Unknown
        }
    }
}

impl vstd::std_specs::convert::FromSpecImpl<&str> for Prefix {
    open spec fn obeys_from_spec() -> bool {
        true
    }

    open spec fn from_spec(s: &str) -> Self {
        prefix_named(s@)
    }
}

} // verus!
