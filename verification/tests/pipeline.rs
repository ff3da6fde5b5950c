use cargo_cpy_run::convert::ConverterCommand;
use cargo_cpy_run::error::{CpyError, ErrorKind};
use cargo_cpy_run::pipeline::{Action, Event, Pipeline, Stage};

fn text(s: &str) -> String {
    String::from(s)
}

fn objcopy(input: &str, binary: &str) -> Action {
    Action::Convert {
        command: ConverterCommand {
            program: text("rust-objcopy"),
            args: vec![text(input), text("-O"), text("binary"), text(binary)],
        },
    }
}

fn exited(success: bool, stderr: &[u8]) -> Event {
    Event::ConverterExited { success, stderr: stderr.to_vec() }
}

fn started(output: &str, input: &str) -> Pipeline {
    Pipeline::start(Some(output), Some(input)).unwrap()
}

#[test]
fn start_keeps_both_arguments() {
    let run = started("./out/", "app.elf");
    assert_eq!(run.stage, Stage::ArgsRead);
    assert_eq!(run.output, "./out/");
    assert_eq!(run.input, "app.elf");
    assert_eq!(run.pending(), Action::ProbeDirectory { path: text("./out/") });
}

#[test]
fn start_without_output_names_the_output() {
    let error = Pipeline::start(None, Some("app.elf")).unwrap_err();
    assert_eq!(error, CpyError::MissingArgument { name: text("Output") });
    assert_eq!(error.message(), "Output is empty");
    assert_eq!(error.kind(), ErrorKind::Argument);
}

#[test]
fn start_without_input_names_the_input() {
    let error = Pipeline::start(Some("out"), None).unwrap_err();
    assert_eq!(error, CpyError::MissingArgument { name: text("Input") });
    assert_eq!(error.message(), "Input is empty");
}

#[test]
fn start_without_anything_names_the_output_first() {
    let error = Pipeline::start(None, None).unwrap_err();
    assert_eq!(error, CpyError::MissingArgument { name: text("Output") });
}

#[test]
fn start_with_empty_arguments_fails() {
    assert_eq!(
        Pipeline::start(Some(""), Some("app.elf")).unwrap_err(),
        CpyError::MissingArgument { name: text("Output") }
    );
    assert_eq!(
        Pipeline::start(Some("out"), Some("")).unwrap_err(),
        CpyError::MissingArgument { name: text("Input") }
    );
}

#[test]
fn a_valid_elf_is_converted_reported_and_copied() {
    let mut run = started("./out/", "app.elf");
    let actions = run.replay(
        vec![
            Event::Probed { holds: true },
            Event::Probed { holds: true },
            exited(true, b""),
            Event::SizeRead { len: 4096 },
            Event::Printed,
            Event::Copied,
        ],
    );
    assert_eq!(
        actions,
        vec![
            Action::ProbeDirectory { path: text("./out/") },
            Action::ProbeFile { path: text("app.elf") },
            objcopy("app.elf", "app.bin"),
            Action::ReadSize { path: text("app.bin") },
            Action::PrintLine { line: text("Final binary size: 4.0 KiB") },
            Action::CopyFile { from: text("app.bin"), to: text("./out/app.bin") },
            Action::Finish,
        ]
    );
    assert_eq!(run.stage, Stage::Copied);
}

#[test]
fn stages_follow_one_another() {
    let mut run = started("out", "build/app.elf");
    run.step(Event::Probed { holds: true });
    assert_eq!(run.stage, Stage::OutputChecked);
    run.step(Event::Probed { holds: true });
    assert_eq!(run.stage, Stage::Validated);
    run.step(exited(true, b"warning: section ignored\n"));
    assert_eq!(run.stage, Stage::Converted);
    run.step(Event::SizeRead { len: 10 });
    assert_eq!(run.stage, Stage::Measured { len: 10 });
    run.step(Event::Printed);
    assert_eq!(run.stage, Stage::Reported { destination: text("out/app.bin") });
    run.step(Event::Copied);
    assert_eq!(run.stage, Stage::Copied);
    assert_eq!(run.output, "out");
    assert_eq!(run.input, "build/app.elf");
}

#[test]
fn a_missing_input_fails_validation_and_writes_nothing() {
    let mut run = started("./out/", "missing.elf");
    let actions = run.replay(
        vec![Event::Probed { holds: true }, Event::Probed { holds: false }],
    );
    assert_eq!(
        actions,
        vec![
            Action::ProbeDirectory { path: text("./out/") },
            Action::ProbeFile { path: text("missing.elf") },
            Action::Fail { error: CpyError::InputNotFile },
        ]
    );
    match &actions[2] {
        Action::Fail { error } => {
            assert!(error.message().contains("Input path must be a file!"));
            assert_eq!(error.kind(), ErrorKind::Validation);
        }
        other => panic!("unexpected action {:?}", other),
    }
    assert_eq!(run.stage, Stage::Failed { error: CpyError::InputNotFile });
}

#[test]
fn a_missing_output_directory_fails_before_the_input_is_looked_at() {
    let mut run = started("nowhere", "app.elf");
    let action = run.step(Event::Probed { holds: false });
    assert_eq!(action, Action::Fail { error: CpyError::OutputNotDirectory });
    match action {
        Action::Fail { error } => {
            assert_eq!(error.message(), "Output path must be a directory!");
            assert_eq!(error.kind(), ErrorKind::Validation);
        }
        other => panic!("unexpected action {:?}", other),
    }
}

#[test]
fn a_failing_tool_stops_the_run_with_its_stderr() {
    let mut run = started("out", "app.elf");
    run.step(Event::Probed { holds: true });
    run.step(Event::Probed { holds: true });
    let stderr = "rust-objcopy: error: 'app.elf': The file was not recognized\n";
    let action = run.step(exited(false, stderr.as_bytes()));
    assert_eq!(action, Action::Fail { error: CpyError::ConversionFailed { stderr: text(stderr) } });
    match action {
        Action::Fail { error } => {
            assert_eq!(error.message(), format!("Obj copy failed: {}", stderr));
            assert!(error.message().contains(stderr));
            assert_eq!(error.kind(), ErrorKind::Conversion);
        }
        other => panic!("unexpected action {:?}", other),
    }
    assert_eq!(run.step(Event::Copied), run.pending());
    assert!(matches!(run.pending(), Action::Fail { .. }));
}

#[test]
fn a_stderr_that_is_not_text_fails_even_a_successful_tool() {
    let mut run = started("out", "app.elf");
    run.step(Event::Probed { holds: true });
    run.step(Event::Probed { holds: true });
    let action = run.step(exited(true, &[b'o', b'k', 0xff]));
    let cause = String::from_utf8(vec![b'o', b'k', 0xff]).unwrap_err().to_string();
    assert_eq!(action, Action::Fail { error: CpyError::StderrNotText { cause: cause.clone() } });
    match action {
        Action::Fail { error } => {
            assert_eq!(error.message(), cause);
            assert_eq!(error.kind(), ErrorKind::Conversion);
        }
        other => panic!("unexpected action {:?}", other),
    }
}

#[test]
fn a_binary_without_a_name_fails_after_the_report() {
    let mut run = started("out", "..");
    let actions = run.replay(
        vec![
            Event::Probed { holds: true },
            Event::Probed { holds: true },
            exited(true, b""),
            Event::SizeRead { len: 1 },
            Event::Printed,
        ],
    );
    assert_eq!(actions[4], Action::PrintLine { line: text("Final binary size: 1 B") });
    assert_eq!(actions[5], Action::Fail { error: CpyError::MissingFileName });
    match &actions[5] {
        Action::Fail { error } => {
            assert_eq!(error.message(), "Binary does not have a name");
            assert_eq!(error.kind(), ErrorKind::Internal);
        }
        other => panic!("unexpected action {:?}", other),
    }
}

#[test]
fn a_refusal_by_the_system_fails_the_run_with_its_cause() {
    let cause = "No such file or directory (os error 2)";
    for reached in 0..6 {
        let mut run = started("out", "app.elf");
        let answers = vec![
            Event::Probed { holds: true },
            Event::Probed { holds: true },
            exited(true, b""),
            Event::SizeRead { len: 7 },
            Event::Printed,
            Event::Copied,
        ];
        for event in answers.into_iter().take(reached) {
            run.step(event);
        }
        let action = run.step(Event::IoFailed { cause: text(cause) });
        assert_eq!(action, Action::Fail { error: CpyError::Io { cause: text(cause) } });
        match action {
            Action::Fail { error } => {
                assert_eq!(error.message(), cause);
                assert_eq!(error.kind(), ErrorKind::Io);
            }
            other => panic!("unexpected action {:?}", other),
        }
    }
}

#[test]
fn an_event_that_answers_nothing_fails_the_run() {
    let mut run = started("out", "app.elf");
    let action = run.step(Event::Copied);
    assert_eq!(action, Action::Fail { error: CpyError::UnexpectedEvent });
    match action {
        Action::Fail { error } => assert_eq!(error.kind(), ErrorKind::Internal),
        other => panic!("unexpected action {:?}", other),
    }

    let mut run = started("out", "app.elf");
    run.step(Event::Probed { holds: true });
    run.step(Event::Probed { holds: true });
    assert_eq!(
        run.step(Event::Probed { holds: true }),
        Action::Fail { error: CpyError::UnexpectedEvent }
    );

    let mut run = started("out", "app.elf");
    run.step(Event::Probed { holds: true });
    run.step(Event::Probed { holds: true });
    run.step(exited(true, b""));
    assert_eq!(run.step(Event::Printed), Action::Fail { error: CpyError::UnexpectedEvent });
}

#[test]
fn a_run_that_has_ended_stays_as_it_is() {
    let mut run = started("out", "app.elf");
    run.replay(
        vec![
            Event::Probed { holds: true },
            Event::Probed { holds: true },
            exited(true, b""),
            Event::SizeRead { len: 4096 },
            Event::Printed,
            Event::Copied,
        ],
    );
    assert_eq!(run.step(Event::IoFailed { cause: text("late") }), Action::Finish);
    assert_eq!(run.step(Event::Probed { holds: false }), Action::Finish);
    assert_eq!(run.stage, Stage::Copied);

    let mut run = started("out", "app.elf");
    run.step(Event::Probed { holds: false });
    assert_eq!(
        run.step(Event::Probed { holds: true }),
        Action::Fail { error: CpyError::OutputNotDirectory }
    );
    assert_eq!(
        run.step(Event::IoFailed { cause: text("late") }),
        Action::Fail { error: CpyError::OutputNotDirectory }
    );
}

#[test]
fn two_runs_on_the_same_arguments_copy_the_same_file_to_the_same_place() {
    let mut first = started("artifacts", "fw/app.elf");
    let mut second = started("artifacts", "fw/app.elf");
    let first_actions = first.replay(
        vec![
            Event::Probed { holds: true },
            Event::Probed { holds: true },
            exited(true, b""),
            Event::SizeRead { len: 4096 },
            Event::Printed,
            Event::Copied,
        ],
    );
    let second_actions = second.replay(
        vec![
            Event::Probed { holds: true },
            Event::Probed { holds: true },
            exited(true, b"note: relinked\n"),
            Event::SizeRead { len: 123456 },
            Event::Printed,
            Event::Copied,
        ],
    );
    assert_eq!(
        first_actions[5],
        Action::CopyFile { from: text("fw/app.bin"), to: text("artifacts/app.bin") }
    );
    assert_eq!(first_actions[5], second_actions[5]);
    assert_eq!(first_actions[2], second_actions[2]);
    assert_ne!(first_actions[4], second_actions[4]);
}

#[test]
fn no_action_writes_before_both_paths_are_confirmed() {
    for (first, second) in [(false, false), (false, true), (true, false)] {
        let mut run = started("out", "app.elf");
        let actions = run.replay(
            vec![
                Event::Probed { holds: first },
                Event::Probed { holds: second },
                exited(true, b""),
                Event::SizeRead { len: 1 },
                Event::Printed,
                Event::Copied,
            ],
        );
        for action in &actions {
            assert!(!matches!(action, Action::Convert { .. } | Action::CopyFile { .. }));
        }
        assert!(matches!(run.stage, Stage::Failed { .. }));
    }
}

#[test]
fn replay_hands_out_what_stepping_hands_out() {
    let script = |stderr: &[u8]| {
        vec![
            Event::Probed { holds: true },
            Event::Probed { holds: true },
            exited(false, stderr),
            Event::SizeRead { len: 4096 },
        ]
    };
    let mut replayed = started("out", "app.elf");
    let actions = replayed.replay(script(b"no"));

    let mut stepped = started("out", "app.elf");
    let mut expected = vec![stepped.pending()];
    for event in script(b"no") {
        expected.push(stepped.step(event));
    }
    assert_eq!(actions, expected);
    assert_eq!(replayed, stepped);
    assert_eq!(actions.len(), 5);
    assert_eq!(
        actions[4],
        Action::Fail { error: CpyError::ConversionFailed { stderr: text("no") } }
    );
}

#[test]
fn replay_of_nothing_hands_out_the_pending_action() {
    let mut run = started("out", "app.elf");
    assert_eq!(run.replay(Vec::new()), vec![Action::ProbeDirectory { path: text("out") }]);
    assert_eq!(run.stage, Stage::ArgsRead);
}
