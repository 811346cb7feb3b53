//! What must be there before the bot starts.
use vstd::prelude::*;

use crate::connection::Config;
use crate::lookup::{look_up, Lookup};

verus! {

/// A program that the bot needs and that was not found.
#[derive(Debug, PartialEq, Eq)]
pub struct MissingCommand {
    pub command: String,
}

/// A search for programs that ended at one that is missing.
#[derive(Debug, PartialEq, Eq)]
pub struct FailedCheck {
    /// What came of every lookup, that of the missing program last.
    pub lookups: Vec<Lookup>,
    /// The program that was not found.
    pub missing: MissingCommand,
}

/// What to do next on the way to a connection.
#[derive(Debug, PartialEq, Eq)]
pub enum StartupStep {
    /// Read the configuration.
    ReadConfig,
    /// Connect as the configuration says.
    Connect(Config),
    /// Log an error, and exit with a status.
    Exit { code: i32, message: String },
}

/// The status with which the bot exits where it cannot start.
pub const STARTUP_FAILURE: i32 = -1;

/// The programs that the bot needs, in the order in which they are looked for.
pub open spec fn required_commands() -> Seq<Seq<char>> {
    seq!["ffmpeg"@, "youtube-dl"@]
}

/// What lookups came to: the program that each looked for, and whether it was found.
pub open spec fn outcomes_of(lookups: Seq<Lookup>) -> Seq<(Seq<char>, bool)> {
    lookups.map_values(|lookup: Lookup| lookup@)
}

/// The mathematical form of programs, each with whether it was found.
pub open spec fn outcome_views(outcomes: Seq<(String, bool)>) -> Seq<(Seq<char>, bool)> {
    outcomes.map_values(|outcome: (String, bool)| (outcome.0@, outcome.1))
}

/// The names that were looked for.
pub open spec fn commands(outcomes: Seq<(Seq<char>, bool)>) -> Seq<Seq<char>> {
    outcomes.map_values(|outcome: (Seq<char>, bool)| outcome.0)
}

/// The first program that was looked for and not found.
pub open spec fn missing_among(outcomes: Seq<(Seq<char>, bool)>) -> Option<Seq<char>>
    decreases outcomes.len(),
{
    if outcomes.len() == 0 {
        None
    } else if !outcomes[0].1 {
        Some(outcomes[0].0)
    } else {
        missing_among(outcomes.skip(1))
    }
}

/// What lookups came to.
pub fn outcomes(lookups: &Vec<Lookup>) -> (r: Vec<(String, bool)>)
    ensures
        outcome_views(r@) == outcomes_of(lookups@),
{
    let mut outcomes: Vec<(String, bool)> = Vec::new();
    for i in 0..lookups.len()
        invariant
            outcome_views(outcomes@) == outcomes_of(lookups@).take(i as int),
    {
        let ghost earlier = outcomes@;
        outcomes.push(lookups[i].outcome());
        assert(outcome_views(outcomes@) == outcome_views(earlier).push(lookups@[i as int]@));
    }
    outcomes
}

/// The first program that was looked for and not found.
pub fn first_missing(outcomes: &Vec<(String, bool)>) -> (r: Option<MissingCommand>)
    ensures
        r is Some <==> missing_among(outcome_views(outcomes@)) is Some,
        r matches Some(missing) ==> missing_among(outcome_views(outcomes@)) == Some(
            missing.command@,
        ),
{
    let ghost all = outcome_views(outcomes@);
    assert(all.skip(0) == all);
    for i in 0..outcomes.len()
        invariant
            all == outcome_views(outcomes@),
            missing_among(all) == missing_among(all.skip(i as int)),
    {
        assert(all.skip(i as int).skip(1) == all.skip(i + 1));
        if !outcomes[i].1 {
            return Some(MissingCommand { command: outcomes[i].0.clone() });
        }
    }
    None
}

/// Looks for the programs that the bot needs, in their order, up to the first that is missing.
pub fn validate_required_commands_exist() -> (r: Result<Vec<Lookup>, FailedCheck>)
    ensures
        match r {
            Ok(lookups) => {
                &&& commands(outcomes_of(lookups@)) == required_commands()
                &&& missing_among(outcomes_of(lookups@)) is None
            },
            Err(failed) => {
                &&& 0 < failed.lookups@.len() <= required_commands().len()
                &&& commands(outcomes_of(failed.lookups@)) == required_commands().take(
                    failed.lookups@.len() as int,
                )
                &&& missing_among(outcomes_of(failed.lookups@.drop_last())) is None
                &&& missing_among(outcomes_of(failed.lookups@)) == Some(failed.missing.command@)
            },
        },
{
    let mut lookups: Vec<Lookup> = Vec::new();
    lookups.push(look_up("ffmpeg"));
    assert(commands(outcomes_of(lookups@)) == required_commands().take(1));
    if let Some(missing) = first_missing(&outcomes(&lookups)) {
        return Err(FailedCheck { lookups, missing });
    }
    let ghost earlier = lookups@;
    lookups.push(look_up("youtube-dl"));
    assert(lookups@.drop_last() == earlier);
    assert(commands(outcomes_of(lookups@)) == required_commands());
    if let Some(missing) = first_missing(&outcomes(&lookups)) {
        assert(required_commands().take(2) == required_commands());
        return Err(FailedCheck { lookups, missing });
    }
    Ok(lookups)
}

/// What to do next, after the search for programs and, once it was read, the configuration: the
/// configuration is read only where no program is missing.
pub fn startup_step(
    check: &Result<Vec<Lookup>, FailedCheck>,
    config: Option<Result<Config, String>>,
) -> (r: StartupStep)
    ensures
        match (*check, config) {
            (Err(failed), _) => r matches StartupStep::Exit { code, message } && code
                == STARTUP_FAILURE && message@ == "Unable to find "@ + failed.missing.command@,
            (Ok(_), None) => r is ReadConfig,
            (Ok(_), Some(Ok(config))) => r == StartupStep::Connect(config),
            (Ok(_), Some(Err(why))) => r matches StartupStep::Exit { code, message } && code
                == STARTUP_FAILURE && message@ == "Failed to parse config: "@ + why@,
        },
{
    if let Err(failed) = check {
        return StartupStep::Exit { code: STARTUP_FAILURE, message: failed.missing.message() };
    }
    match config {
        None => StartupStep::ReadConfig,
        Some(Ok(config)) => StartupStep::Connect(config),
        Some(Err(why)) => {
            let mut message = "Failed to parse config: ".to_string();
            message.append(why.as_str());
            StartupStep::Exit { code: STARTUP_FAILURE, message }
        },
    }
}

impl MissingCommand {
    /// What the bot says of a program that it cannot find.
    pub fn message(&self) -> (r: String)
        ensures
            r@ == "Unable to find "@ + self.command@,
    {
        let mut message = "Unable to find ".to_string();
        message.append(self.command.as_str());
        message
    }
}

/// The bot can start exactly where every program that was looked for was found.
pub proof fn law_none_missing(outcomes: Seq<(Seq<char>, bool)>)
    ensures
        missing_among(outcomes) is None <==> forall|i: int|
            0 <= i < outcomes.len() ==> (#[trigger] outcomes[i]).1,
    decreases outcomes.len(),
{
    if outcomes.len() > 0 {
        law_none_missing(outcomes.skip(1));
        if outcomes[0].1 {
            if missing_among(outcomes) is None {
                assert forall|i: int| 0 <= i < outcomes.len() implies (
                #[trigger] outcomes[i]).1 by {
                    if i > 0 {
                        assert(outcomes.skip(1)[i - 1] == outcomes[i]);
                    }
                }
            } else {
                let i = choose|i: int|
                    0 <= i < outcomes.skip(1).len() && !(#[trigger] outcomes.skip(1)[i]).1;
                assert(!outcomes[i + 1].1);
            }
        }
    }
}

/// The program that is reported is the first that was not found: those before it were, and what
/// comes behind it makes no difference.
pub proof fn law_first_missing(
    found: Seq<(Seq<char>, bool)>,
    command: Seq<char>,
    rest: Seq<(Seq<char>, bool)>,
)
    requires
        forall|i: int| 0 <= i < found.len() ==> (#[trigger] found[i]).1,
    ensures
        missing_among(found + seq![(command, false)] + rest) == Some(command),
    decreases found.len(),
{
    let outcomes = found + seq![(command, false)] + rest;
    if found.len() > 0 {
        assert(outcomes[0] == found[0]);
        assert(found[0].1);
        assert forall|i: int| 0 <= i < found.skip(1).len() implies (
        #[trigger] found.skip(1)[i]).1 by {
            assert(found.skip(1)[i] == found[i + 1]);
        }
        law_first_missing(found.skip(1), command, rest);
        assert(outcomes.skip(1) == found.skip(1) + seq![(command, false)] + rest);
    } else {
        assert(outcomes[0] == (command, false));
    }
}

/// Two programs are needed: `ffmpeg`, which is looked for first, and `youtube-dl`.
pub proof fn law_required_commands()
    ensures
        required_commands().len() == 2,
        required_commands()[0] == "ffmpeg"@,
        required_commands()[1] == "youtube-dl"@,
{
}

/// What is said of lookups is said of each, in their order.
pub proof fn law_outcomes(lookups: Seq<Lookup>, plain: Seq<(String, bool)>)
    ensures
        outcomes_of(lookups).len() == lookups.len(),
        forall|i: int| 0 <= i < lookups.len() ==> #[trigger] outcomes_of(lookups)[i] == lookups[i]@,
        outcome_views(plain).len() == plain.len(),
        forall|i: int|
            0 <= i < plain.len() ==> #[trigger] outcome_views(plain)[i] == (plain[i].0@, plain[i].1),
        commands(outcomes_of(lookups)).len() == lookups.len(),
        forall|i: int|
            0 <= i < lookups.len() ==> #[trigger] commands(outcomes_of(lookups))[i] == lookups[i]@.0,
{
}

} // verus!
