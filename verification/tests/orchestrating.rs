use ghpick::errors::PickError;
use ghpick::fetcher::classify_response;
use ghpick::fetcher::DownloadResult;
use ghpick::orchestrator::event_fits_check;
use ghpick::orchestrator::step;
use ghpick::orchestrator::Outcome;
use ghpick::orchestrator::RunAction;
use ghpick::orchestrator::RunConfig;
use ghpick::orchestrator::RunEvent;
use ghpick::orchestrator::RunState;
use ghpick::resolver::parse_path;
use ghpick::saver::join_path;

fn example_config() -> RunConfig {
    RunConfig {
        path: String::from("abbit/ghpick/src/main.rs"),
        branch: String::from("main"),
        dest: String::from("./out"),
    }
}

#[test]
fn path_joins_destination_and_file_name() {
    assert_eq!(join_path("./out", "main.rs"), "./out/main.rs");
}

#[test]
fn successful_run_saves_and_reports() {
    let config = example_config();
    let resolved = parse_path(&config.path, &config.branch);
    let event = RunEvent::PathResolved { result: resolved };
    assert!(event_fits_check(&RunState::Resolving, &event));
    let (state, action) = step(&config, RunState::Resolving, event);
    let locator = match action {
        RunAction::StartIndicatorAndFetch { url, status_message, locator } => {
            assert_eq!(url, "https://raw.githubusercontent.com/abbit/ghpick/main/src/main.rs");
            assert_eq!(status_message, "Fetching abbit/ghpick/src/main.rs");
            assert_eq!(locator, "abbit/ghpick/main/src/main.rs");
            locator
        },
        _ => panic!("a resolved path starts the indicator and the fetch"),
    };
    assert!(matches!(state, RunState::Downloading { .. }));

    let download = classify_response(&locator, 200, String::from("fn main() {}"));
    let event = RunEvent::DownloadFinished { result: download };
    assert!(event_fits_check(&state, &event));
    let (state, action) = step(&config, state, event);
    match action {
        RunAction::WriteFile { dest_path, content } => {
            assert_eq!(dest_path, "./out/main.rs");
            assert_eq!(content, "fn main() {}");
        },
        _ => panic!("a successful download is written out"),
    }
    assert!(matches!(state, RunState::Saving { .. }));

    let event = RunEvent::WriteFinished { result: Ok(()) };
    assert!(event_fits_check(&state, &event));
    let (state, action) = step(&config, state, event);
    match action {
        RunAction::StopIndicatorAndReport { outcome } => match outcome {
            Outcome::Saved { locator, dest_path } => {
                assert_eq!(locator, "abbit/ghpick/main/src/main.rs");
                assert_eq!(dest_path, "./out/main.rs");
                let report = Outcome::Saved { locator, dest_path }.render();
                assert_eq!(report, "abbit/ghpick/main/src/main.rs saved to ./out/main.rs\nDone!");
            },
            Outcome::Failed { .. } => panic!("the run succeeded"),
        },
        _ => panic!("a finished write stops the indicator and reports"),
    }
    assert!(matches!(state, RunState::Finished { outcome: Outcome::Saved { .. } }));
}

#[test]
fn remote_failure_stops_and_reports_without_writing() {
    let config = example_config();
    let resolved = parse_path(&config.path, &config.branch);
    let (state, action) = step(&config, RunState::Resolving, RunEvent::PathResolved {
        result: resolved,
    });
    let locator = match action {
        RunAction::StartIndicatorAndFetch { locator, .. } => locator,
        _ => panic!("a resolved path starts the fetch"),
    };

    let download = classify_response(&locator, 404, String::from("Not Found"));
    let (state, action) = step(&config, state, RunEvent::DownloadFinished { result: download });
    match action {
        RunAction::StopIndicatorAndReport { outcome } => match outcome {
            Outcome::Failed { message } => {
                assert_eq!(message, "failed to fetch abbit/ghpick/main/src/main.rs: Not Found");
                assert!(message.contains("Not Found"));
            },
            Outcome::Saved { .. } => panic!("a 404 response fails the run"),
        },
        RunAction::WriteFile { .. } => panic!("nothing is written after a failed download"),
        _ => panic!("a failed download stops the indicator and reports"),
    }
    assert!(matches!(state, RunState::Finished { outcome: Outcome::Failed { .. } }));
}

#[test]
fn bad_input_fails_before_any_network_step() {
    let config = RunConfig {
        path: String::from("justonesegment"),
        branch: String::from("main"),
        dest: String::from("."),
    };
    let resolved = parse_path(&config.path, &config.branch);
    assert!(matches!(resolved, Err(PickError::InvalidPath)));
    let (state, action) = step(&config, RunState::Resolving, RunEvent::PathResolved {
        result: resolved,
    });
    match action {
        RunAction::ReportUsageError { message } => assert_eq!(message, "invalid path"),
        RunAction::StartIndicatorAndFetch { .. } => {
            panic!("the indicator is never started on a bad input")
        },
        _ => panic!("a bad input is reported as a usage error"),
    }
    match state {
        RunState::Finished { outcome } => match outcome {
            Outcome::Failed { message } => assert_eq!(message, "invalid path"),
            Outcome::Saved { .. } => panic!("a bad input fails the run"),
        },
        _ => panic!("a bad input finishes the run at once"),
    }
}

#[test]
fn write_failure_reports_the_system_detail() {
    let config = example_config();
    let resolved = parse_path(&config.path, &config.branch);
    let (state, _) = step(&config, RunState::Resolving, RunEvent::PathResolved {
        result: resolved,
    });
    let download = DownloadResult::Success { content: String::from("fn main() {}") };
    let (state, _) = step(&config, state, RunEvent::DownloadFinished { result: download });
    let failed = RunEvent::WriteFinished {
        result: Err(PickError::IOFailure { detail: String::from("permission denied") }),
    };
    assert!(event_fits_check(&state, &failed));
    let (state, action) = step(&config, state, failed);
    match action {
        RunAction::StopIndicatorAndReport { outcome } => match outcome {
            Outcome::Failed { message } => assert_eq!(message, "permission denied"),
            Outcome::Saved { .. } => panic!("a failed write fails the run"),
        },
        _ => panic!("a failed write stops the indicator and reports"),
    }
    assert!(matches!(state, RunState::Finished { .. }));
}

#[test]
fn events_fit_only_the_state_that_awaits_them() {
    let ok_write = RunEvent::WriteFinished { result: Ok(()) };
    assert!(!event_fits_check(&RunState::Resolving, &ok_write));
    let resolved = RunEvent::PathResolved { result: Err(PickError::InvalidPath) };
    assert!(event_fits_check(&RunState::Resolving, &resolved));
    let finished = RunState::Finished {
        outcome: Outcome::Failed { message: String::from("invalid path") },
    };
    assert!(!event_fits_check(&finished, &resolved));
}
