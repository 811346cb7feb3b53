use tsbot::connection::Config;
use tsbot::lookup::Lookup;
use tsbot::startup::{
    first_missing, outcomes, startup_step, validate_required_commands_exist, FailedCheck,
    MissingCommand, StartupStep, STARTUP_FAILURE,
};

fn outcome(command: &str, found: bool) -> (String, bool) {
    (command.to_string(), found)
}

fn missing(command: &str) -> MissingCommand {
    MissingCommand { command: command.to_string() }
}

fn made_lookups() -> Vec<Lookup> {
    match validate_required_commands_exist() {
        Ok(lookups) => lookups,
        Err(failed) => failed.lookups,
    }
}

fn config() -> Config {
    Config {
        host: "example.org".to_string(),
        password: "open sesame".to_string(),
        name: "bot".to_string(),
        id: "key".to_string(),
    }
}

#[test]
fn the_first_missing_program_is_named() {
    assert_eq!(first_missing(&vec![]), None);
    assert_eq!(first_missing(&vec![outcome("a", true), outcome("b", true)]), None);
    assert_eq!(
        first_missing(&vec![outcome("a", true), outcome("b", false), outcome("c", false)]),
        Some(missing("b"))
    );
    assert_eq!(first_missing(&vec![outcome("a", false), outcome("b", true)]), Some(missing("a")));
}

#[test]
fn programs_are_looked_for_in_order() {
    let ffmpeg = which::which("ffmpeg").is_ok();
    let youtube_dl = which::which("youtube-dl").is_ok();
    let expected = if !ffmpeg {
        (vec![outcome("ffmpeg", false)], Some(missing("ffmpeg")))
    } else if !youtube_dl {
        (vec![outcome("ffmpeg", true), outcome("youtube-dl", false)], Some(missing("youtube-dl")))
    } else {
        (vec![outcome("ffmpeg", true), outcome("youtube-dl", true)], None)
    };
    let found = match validate_required_commands_exist() {
        Ok(lookups) => (outcomes(&lookups), None),
        Err(FailedCheck { lookups, missing }) => (outcomes(&lookups), Some(missing)),
    };
    assert_eq!(found, expected);
}

#[test]
fn a_lookup_tells_its_program_and_whether_it_is_there() {
    let lookups = made_lookups();
    assert_eq!(lookups[0].outcome(), outcome("ffmpeg", which::which("ffmpeg").is_ok()));
    assert_eq!(outcomes(&lookups).len(), lookups.len());
    assert_eq!(outcomes(&vec![]), vec![]);
}

#[test]
fn a_missing_program_is_told_of() {
    assert_eq!(missing("ffmpeg").message(), "Unable to find ffmpeg");
    assert_eq!(missing("youtube-dl").message(), "Unable to find youtube-dl");
    assert_eq!(STARTUP_FAILURE, -1);
}

#[test]
fn a_missing_program_ends_the_startup() {
    let check = Err(FailedCheck { lookups: made_lookups(), missing: missing("ffmpeg") });
    for given in [None, Some(Ok(config())), Some(Err("no file".to_string()))] {
        assert_eq!(
            startup_step(&check, given),
            StartupStep::Exit { code: -1, message: "Unable to find ffmpeg".to_string() }
        );
    }
}

#[test]
fn the_configuration_decides_where_no_program_is_missing() {
    let check = Ok(made_lookups());
    assert_eq!(startup_step(&check, None), StartupStep::ReadConfig);
    assert_eq!(startup_step(&check, Some(Ok(config()))), StartupStep::Connect(config()));
    assert_eq!(
        startup_step(&check, Some(Err("no file".to_string()))),
        StartupStep::Exit { code: -1, message: "Failed to parse config: no file".to_string() }
    );
}
