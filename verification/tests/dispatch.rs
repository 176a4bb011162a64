use krunner::dispatch::{
    config_reply, done_reply, failed, handle_config, handle_match, handle_run, handle_teardown,
    match_reply,
};
use krunner::action::text_eq;
use krunner::nix::{
    launch_arguments, program_match, ranked_matches, Hit, Program, ProgramAction, ProgramRunner,
    Ranker,
};
use krunner::{Config, FaultKind, Match, MatchIcon, MatchType, Plugin, WireValue};

struct Fixed(Vec<Hit>);

impl Ranker for Fixed {
    fn rank(&self, _query: &str) -> Vec<Hit> {
        self.0.clone()
    }
}

fn program(id: &str, description: &str) -> Program {
    Program {
        id: id.to_owned(),
        description: description.to_owned(),
        pname: id.to_owned(),
        version: "1.0".to_owned(),
    }
}

fn runner(hits: Vec<Hit>) -> ProgramRunner<Fixed> {
    ProgramRunner::new(
        vec![program("hello", "A friendly greeter"), program("cowsay", "A talking cow")],
        Fixed(hits),
    )
}

#[test]
fn run_with_empty_action_id_is_the_default_activation() {
    let mut r = runner(vec![]);
    assert_eq!(handle_run(&mut r, "m1".to_owned(), "".to_owned()), Ok(()));
    assert!(r.launches.is_empty());
}

#[test]
fn run_with_a_valid_action_id_hands_the_action_to_the_handler() {
    let mut r = runner(vec![]);
    assert_eq!(handle_run(&mut r, "m1".to_owned(), "run".to_owned()), Ok(()));
    assert_eq!(
        r.launches,
        vec![vec![
            "run".to_owned(),
            "nixpkgs#m1".to_owned(),
            "--extra-experimental-features".to_owned(),
            "nix-command".to_owned(),
        ]]
    );
    assert_eq!(handle_run(&mut r, "m2".to_owned(), "run".to_owned()), Ok(()));
    assert_eq!(r.launches.len(), 2);
    assert_eq!(r.launches[1][1], "nixpkgs#m2");
}

#[test]
fn run_with_a_bogus_action_id_faults_and_never_reaches_the_handler() {
    let mut r = runner(vec![]);
    let fault = handle_run(&mut r, "m1".to_owned(), "bogus".to_owned()).unwrap_err();
    assert_eq!(fault.kind, FaultKind::InvalidArgument);
    assert_eq!(fault.detail, "Unknown action");
    assert!(r.launches.is_empty());
}

#[test]
fn config_on_a_plugin_without_one_is_method_not_found() {
    let mut r = runner(vec![]);
    let fault = handle_config(&mut r).unwrap_err();
    assert_eq!(fault.kind, FaultKind::MethodNotFound);
    assert_ne!(fault.kind, FaultKind::Failed);
    assert_eq!(fault.detail, "config");
}

#[test]
fn config_reply_covers_the_three_outcomes() {
    let declined: Result<Option<Config<ProgramAction>>, String> = Ok(None);
    assert_eq!(config_reply(declined).unwrap_err().kind, FaultKind::MethodNotFound);

    let failed: Result<Option<Config<ProgramAction>>, String> = Err("boom".to_owned());
    let fault = config_reply(failed).unwrap_err();
    assert_eq!(fault.kind, FaultKind::Failed);
    assert_eq!(fault.detail, "boom");

    let config: Config<ProgramAction> = Config { min_letter_count: Some(2), ..Config::default() };
    let expected = config.encode();
    let given: Result<Option<Config<ProgramAction>>, String> = Ok(Some(config));
    let dict = config_reply(given).unwrap();
    assert_eq!(dict, expected);
    assert_eq!(dict[0].key, "MinLetterCount");
    assert_eq!(dict[0].value, WireValue::Int32(2));
    assert_eq!(dict[1].key, "Actions");
}

#[test]
fn done_reply_maps_errors_to_failed() {
    let ok: Result<(), String> = Ok(());
    assert_eq!(done_reply(ok), Ok(()));
    let err: Result<(), String> = Err("no such program".to_owned());
    let fault = done_reply(err).unwrap_err();
    assert_eq!(fault.kind, FaultKind::Failed);
    assert_eq!(fault.detail, "no such program");
}

#[test]
fn failed_carries_what_the_error_displays() {
    let fault = failed(&42);
    assert_eq!(fault.kind, FaultKind::Failed);
    assert_eq!(fault.detail, "42");
}

#[test]
fn match_reply_encodes_or_fails() {
    let m: Match<ProgramAction> = Match::new("a".to_owned()).action(ProgramAction::Run);
    let expected = m.encode();
    let ok: Result<Vec<Match<ProgramAction>>, String> = Ok(vec![m]);
    assert_eq!(match_reply(ok), Ok(vec![expected]));
    let err: Result<Vec<Match<ProgramAction>>, String> = Err("index lost".to_owned());
    let fault = match_reply(err).unwrap_err();
    assert_eq!(fault.kind, FaultKind::Failed);
    assert_eq!(fault.detail, "index lost");
}

#[test]
fn match_turns_the_ranking_into_records() {
    let mut r = runner(vec![
        Hit { key: 1, score: 0.75f64.to_bits() },
        Hit { key: 0, score: 0.5f64.to_bits() },
    ]);
    let records = handle_match(&mut r, "cow".to_owned()).unwrap();
    assert_eq!(records.len(), 2);
    assert_eq!(records[0].id, "cowsay");
    assert_eq!(records[0].title, "Nix: cowsay");
    assert_eq!(records[0].icon, "nix-snowflake");
    assert_eq!(records[0].ty, 30);
    assert_eq!(f64::from_bits(records[0].relevance), 0.75);
    assert_eq!(records[0].extra.len(), 2);
    assert_eq!(records[0].extra[0].key, "subtitle");
    assert_eq!(records[0].extra[0].value, WireValue::Text("A talking cow".to_owned()));
    assert_eq!(records[0].extra[1].key, "actions");
    assert_eq!(records[0].extra[1].value, WireValue::TextList(vec!["run".to_owned()]));
    assert_eq!(records[1].id, "hello");
    assert_eq!(f64::from_bits(records[1].relevance), 0.5);
}

#[test]
fn match_with_no_hits_is_an_empty_reply() {
    let mut r = runner(vec![]);
    assert_eq!(handle_match(&mut r, "zzz".to_owned()), Ok(vec![]));
}

#[test]
fn a_hit_outside_the_programs_fails_the_call() {
    let mut r = runner(vec![Hit { key: 0, score: 0 }, Hit { key: 2, score: 0 }]);
    let fault = handle_match(&mut r, "x".to_owned()).unwrap_err();
    assert_eq!(fault.kind, FaultKind::Failed);
    assert_eq!(fault.detail, "Unknown program");
}

#[test]
fn teardown_replies_and_leaves_the_plugin_in_service() {
    let mut r = runner(vec![Hit { key: 0, score: 1.0f64.to_bits() }]);
    assert_eq!(handle_teardown(&mut r), Ok(()));
    assert_eq!(handle_teardown(&mut r), Ok(()));
    let records = handle_match(&mut r, "hello".to_owned()).unwrap();
    assert_eq!(records.len(), 1);
    assert_eq!(handle_run(&mut r, "hello".to_owned(), "run".to_owned()), Ok(()));
    assert_eq!(r.launches.len(), 1);
}

#[test]
fn handlers_can_be_called_directly() {
    let mut r = runner(vec![]);
    assert_eq!(r.config(), Ok(None));
    assert_eq!(r.teardown(), Ok(()));
    assert_eq!(r.run("x".to_owned(), None), Ok(()));
    assert!(r.launches.is_empty());
    assert_eq!(r.run("x".to_owned(), Some(ProgramAction::Run)), Ok(()));
    assert_eq!(r.launches.len(), 1);
    assert_eq!(r.matches("q".to_owned()), Ok(vec![]));
}

#[test]
fn program_match_is_built_from_the_program() {
    let m = program_match(&program("hello", "A friendly greeter"), 0.25f64.to_bits());
    assert_eq!(
        m,
        Match {
            id: "hello".to_owned(),
            title: "Nix: hello".to_owned(),
            subtitle: Some("A friendly greeter".to_owned()),
            icon: MatchIcon::ByName("nix-snowflake".to_owned()),
            ty: MatchType::PossibleMatch,
            relevance: 0.25f64.to_bits(),
            urls: vec![],
            category: None,
            multiline: false,
            actions: vec![ProgramAction::Run],
        }
    );
}

#[test]
fn ranked_matches_follow_the_ranking() {
    let programs = vec![program("a", "first"), program("b", "second")];
    let hits = vec![Hit { key: 1, score: 7 }, Hit { key: 1, score: 3 }, Hit { key: 0, score: 1 }];
    let matches = ranked_matches(&programs, &hits).unwrap();
    assert_eq!(
        matches,
        vec![
            program_match(&programs[1], 7),
            program_match(&programs[1], 3),
            program_match(&programs[0], 1),
        ]
    );
    assert_eq!(ranked_matches(&programs, &vec![]), Ok(vec![]));
    assert_eq!(
        ranked_matches(&programs, &vec![Hit { key: 2, score: 0 }]),
        Err("Unknown program".to_owned())
    );
}

#[test]
fn indexable_fields_are_id_description_and_package_name() {
    let p = Program {
        id: "hello".to_owned(),
        description: "A friendly greeter".to_owned(),
        pname: "hello-pkg".to_owned(),
        version: "2.12".to_owned(),
    };
    assert_eq!(p.indexable_fields(), vec!["hello", "A friendly greeter", "hello-pkg"]);
}

#[test]
fn launch_arguments_name_the_program() {
    assert_eq!(
        launch_arguments("cowsay"),
        vec!["run", "nixpkgs#cowsay", "--extra-experimental-features", "nix-command"]
    );
    assert_eq!(launch_arguments("")[1], "nixpkgs#");
}

#[test]
fn text_eq_compares_contents() {
    assert!(text_eq("run", "run"));
    assert!(!text_eq("run", "Run"));
    assert!(text_eq("", ""));
    assert!(!text_eq("", " "));
}

#[test]
fn sanity_plugin_knows_one_query() {
    let found = krunner::sanity::sanity_matches::<ProgramAction>("balls");
    assert_eq!(found, vec![Match::new("balls".to_owned())]);
    assert_eq!(found[0].ty, MatchType::PossibleMatch);
    assert_eq!(f64::from_bits(found[0].relevance), 1.0);
    assert!(krunner::sanity::sanity_matches::<ProgramAction>("ball").is_empty());
    assert!(krunner::sanity::sanity_matches::<ProgramAction>("").is_empty());
    assert!(krunner::sanity::sanity_matches::<ProgramAction>("Balls").is_empty());
}

#[test]
fn cloned_config_keeps_its_filter() {
    let c: Config<ProgramAction> = Config {
        match_filter: Some(krunner::MatchFilter::Keywords(vec!["a".to_owned(), "b".to_owned()])),
        min_letter_count: Some(1),
        ..Config::default()
    };
    assert_eq!(c.clone(), c);
    let r: Config<ProgramAction> = Config {
        match_filter: Some(krunner::MatchFilter::Regex("x+".to_owned())),
        ..Config::default()
    };
    assert_eq!(r.clone(), r);
    assert_ne!(r.clone(), c);
}

#[test]
fn faults_become_bus_errors() {
    let invalid = krunner::dispatch::resolve_action::<ProgramAction>("bogus").unwrap_err();
    let e = invalid.to_method_err();
    assert_eq!(&**e.errorname(), "org.freedesktop.DBus.Error.InvalidArgs");
    assert_eq!(e.description(), "Invalid argument \"Unknown action\"");

    let declined: Result<Option<Config<ProgramAction>>, String> = Ok(None);
    let e = config_reply(declined).unwrap_err().to_method_err();
    assert_eq!(&**e.errorname(), "org.freedesktop.DBus.Error.UnknownMethod");
    assert_eq!(e.description(), "Unknown method config");

    let broken: Result<(), String> = Err("index lost".to_owned());
    let e = done_reply(broken).unwrap_err().to_method_err();
    assert_eq!(&**e.errorname(), "org.freedesktop.DBus.Error.Failed");
    assert_eq!(e.description(), "index lost");
}

#[test]
fn bus_errors_match_what_the_bus_library_makes_itself() {
    let fault = krunner::Fault { kind: FaultKind::Failed, detail: "x y".to_owned() };
    assert_eq!(fault.to_method_err(), dbus::MethodErr::failed("x y"));
    let fault = krunner::Fault { kind: FaultKind::InvalidArgument, detail: "a \"b\"".to_owned() };
    assert_eq!(fault.to_method_err(), dbus::MethodErr::invalid_arg("a \"b\""));
    let fault = krunner::Fault { kind: FaultKind::MethodNotFound, detail: "".to_owned() };
    assert_eq!(fault.to_method_err(), dbus::MethodErr::no_method(""));
    assert_eq!(fault.to_method_err().description(), "Unknown method ");
}
