//! The failures this subsystem reports. All are explicit, human-readable
//! errors; the only silent mapping anywhere is the provider's "not found"
//! membership response meaning "not a member" (see `crate::provider`).

use vstd::prelude::*;
use vstd::string::*;
use crate::strutil::push_char;

verus! {

/// Why resolving or registering an owner failed.
///
/// `Upstream` is reserved for the caller that talks to the provider: any
/// transport, auth or rate-limit failure aborts the whole operation and is
/// carried through unmodified; this library applies no retry policy.
#[derive(Debug)]
pub enum OwnerError {
    /// A group reference was missing its team segment.
    InvalidFormat,
    /// A group reference named a provider other than the supported one.
    UnknownProvider,
    /// The organization name held a character outside `[A-Za-z0-9_-]`;
    /// carries the offending character.
    InvalidOrgName(char),
    /// No individual with this login exists; carries the login.
    UserNotFound(String),
    /// The provider listed no group with this slug; carries the
    /// organization and team names.
    TeamNotFound(String, String),
    /// The acting user is not an active member of the group being
    /// registered.
    PermissionDenied,
    /// A provider transport/auth/rate-limit failure, carried unmodified.
    Upstream(String),
}

impl OwnerError {
    /// The human-readable description of the failure.
    pub fn message(&self) -> (r: String)
        ensures
            self is InvalidFormat ==> r@ == "missing github team argument; format is github:org:team"@,
            self is UnknownProvider ==> r@
                == "unknown organization handler, only 'github:org:team' is supported"@,
            (self matches OwnerError::InvalidOrgName(c) ==> r@
                == "organization cannot contain special characters like "@ + seq![*c]),
            (self matches OwnerError::UserNotFound(login) ==> r@
                == "could not find user with login `"@ + login@ + "`"@),
            (self matches OwnerError::TeamNotFound(org, team) ==> r@
                == "could not find the github team "@ + org@ + "/"@ + team@),
            self is PermissionDenied ==> r@ == "only members of a team can add it as an owner"@,
            (self matches OwnerError::Upstream(msg) ==> r@ == msg@),
    {
        match self {
            OwnerError::InvalidFormat => String::from_str(
                "missing github team argument; format is github:org:team",
            ),
            OwnerError::UnknownProvider => String::from_str(
                "unknown organization handler, only 'github:org:team' is supported",
            ),
            OwnerError::InvalidOrgName(c) => {
                let mut s = String::from_str(
                    "organization cannot contain special characters like ",
                );
                push_char(&mut s, *c);
                s
            },
            OwnerError::UserNotFound(login) => String::from_str("could not find user with login `")
                .concat(login.as_str())
                .concat("`"),
            OwnerError::TeamNotFound(org, team) => String::from_str(
                "could not find the github team ",
            ).concat(org.as_str()).concat("/").concat(team.as_str()),
            OwnerError::PermissionDenied => String::from_str(
                "only members of a team can add it as an owner",
            ),
            OwnerError::Upstream(msg) => msg.clone(),
        }
    }
}

} // verus!
