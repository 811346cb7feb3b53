//! Looking for programs.
use vstd::prelude::*;

verus! {

/// What came of looking for a program. Its fields are private: only a search makes one.
#[derive(Debug, PartialEq, Eq)]
pub struct Lookup {
    command: String,
    found: bool,
}

impl View for Lookup {
    type V = (Seq<char>, bool);

    closed spec fn view(&self) -> (Seq<char>, bool) {
        (self.command@, self.found)
    }
}

impl Lookup {
    /// The program's name, and whether it was found.
    pub fn outcome(&self) -> (r: (String, bool))
        ensures
            (r.0@, r.1) == self@,
    {
        (self.command.clone(), self.found)
    }
}

/// Looks for a program with `which::which`. What is found depends on the machine: nothing is said
/// of it but which program was looked for.
#[verifier::external_body]
pub(crate) fn look_up(command: &str) -> (r: Lookup)
    ensures
        r@.0 == command@,
{
    Lookup { command: command.to_string(), found: which::which(command).is_ok() }
}

/// A lookup stands for the program that was looked for and for whether it was found, as they are.
proof fn law_lookup_form(lookup: Lookup)
    ensures
        lookup@.0 == lookup.command@,
        lookup@.1 == lookup.found,
{
}

} // verus!
