//! The closed set of recipient roles and their canonical names.
use crate::text::same_text;
use vstd::prelude::*;

verus! {

/// A recipient role. Messages are addressed to roles, never to tasks.
#[derive(Clone, Copy, Debug, PartialEq, Eq, Hash, Structural)]
pub enum ActorTypes {
    ActorA,
    ActorB,
}

/// Why a role name could not be parsed.
#[derive(Clone, Copy, Debug, PartialEq, Eq, Structural)]
pub enum ParseError {
    /// The name is not the canonical name of any role.
    UnknownRole,
}

impl ActorTypes {
    /// The canonical name of the role, as a sequence of characters.
    pub open spec fn spec_name(self) -> Seq<char> {
        match self {
            ActorTypes::ActorA => "ActorA"@,
            ActorTypes::ActorB => "ActorB"@,
        }
    }

    /// The role that a name denotes, if any. Names are matched exactly:
    /// case matters and surrounding blanks are not trimmed.
    pub open spec fn of_name(name: Seq<char>) -> Option<ActorTypes> {
        if name == "ActorA"@ {
            Some(ActorTypes::ActorA)
        } else if name == "ActorB"@ {
            Some(ActorTypes::ActorB)
        } else {
            None
        }
    }

    /// The key under which the role is filed in tables.
    pub open spec fn spec_code(self) -> u8 {
        match self {
            ActorTypes::ActorA => 0,
            ActorTypes::ActorB => 1,
        }
    }

    /// The key under which the role is filed in tables. No two roles share a key.
    pub fn code(&self) -> (code: u8)
        ensures
            code == self.spec_code(),
    {
        match self {
            ActorTypes::ActorA => 0,
            ActorTypes::ActorB => 1,
        }
    }

    /// The canonical name of the role.
    pub fn name(&self) -> (name: &'static str)
        ensures
            name@ == self.spec_name(),
    {
        match self {
            ActorTypes::ActorA => "ActorA",
            ActorTypes::ActorB => "ActorB",
        }
    }

    /// Parses the canonical name of a role.
    pub fn from_str(name: &str) -> (parsed: Result<ActorTypes, ParseError>)
        ensures
            parsed == match Self::of_name(name@) {
                Some(role) => Ok::<ActorTypes, ParseError>(role),
                None => Err(ParseError::UnknownRole),
            },
    {
        if same_text(name, "ActorA") {
            Ok(ActorTypes::ActorA)
        } else if same_text(name, "ActorB") {
            Ok(ActorTypes::ActorB)
        } else {
            Err(ParseError::UnknownRole)
        }
    }
}

impl std::str::FromStr for ActorTypes {
    type Err = ParseError;

    /// Parses the canonical name of a role.
    fn from_str(name: &str) -> (parsed: Result<ActorTypes, ParseError>)
        ensures
            parsed == match ActorTypes::of_name(name@) {
                Some(role) => Ok::<ActorTypes, ParseError>(role),
                None => Err(ParseError::UnknownRole),
            },
    {
        ActorTypes::from_str(name)
    }
}

/// Every role is denoted by its own canonical name, and by no other name: no two
/// roles share a name.
pub proof fn lemma_role_names_are_distinct(role: ActorTypes, name: Seq<char>)
    ensures
        ActorTypes::of_name(name) == Some(role) <==> name == role.spec_name(),
{
    reveal_strlit("ActorA");
    reveal_strlit("ActorB");
    assert("ActorA"@[5] == 'A');
    assert("ActorB"@[5] == 'B');
}

} // verus!
