use hello_edge_tts::config::TTSError;
use hello_edge_tts::{EdgeTtsAction, EdgeTtsRun, OutputOutcome, ProcessOutcome};

fn expect_run(run: &EdgeTtsRun) -> (String, Vec<String>) {
    match run.next_action() {
        EdgeTtsAction::Run { program, args } => (program, args),
        _ => panic!("expected a run"),
    }
}

fn synthesis_detail(r: Result<Vec<u8>, TTSError>) -> String {
    match r {
        Err(TTSError::Synthesis(m)) => m,
        other => panic!("unexpected {:?}", other),
    }
}

#[test]
fn direct_tool_success_reads_file() {
    let mut run = EdgeTtsRun::new("Hello", "en-US-AriaNeural", "/tmp/out.mp3");
    let (program, args) = expect_run(&run);
    assert_eq!(program, "edge-tts");
    assert_eq!(
        args,
        vec!["--voice", "en-US-AriaNeural", "--text", "Hello", "--write-media", "/tmp/out.mp3"]
    );
    run.process_ended(ProcessOutcome::Exited { success: true, stderr: String::new() });
    assert!(matches!(run.next_action(), EdgeTtsAction::ReadOutput));
    run.output_read(OutputOutcome::Read(vec![9, 8, 7]));
    assert!(matches!(run.next_action(), EdgeTtsAction::Finished));
    assert_eq!(run.finish().unwrap(), vec![9, 8, 7]);
}

#[test]
fn python_module_after_direct_failure() {
    let mut run = EdgeTtsRun::new("Hi", "v", "o.mp3");
    run.process_ended(ProcessOutcome::SpawnFailed("not found".to_string()));
    let (program, args) = expect_run(&run);
    assert_eq!(program, "python");
    assert_eq!(args, vec!["-m", "edge_tts", "--voice", "v", "--text", "Hi", "--write-media", "o.mp3"]);
    run.process_ended(ProcessOutcome::Exited { success: false, stderr: "bad voice".to_string() });
    assert!(matches!(run.next_action(), EdgeTtsAction::Finished));
    assert_eq!(synthesis_detail(run.finish()), "Edge TTS failed: bad voice");
}

#[test]
fn python_module_cannot_start() {
    let mut run = EdgeTtsRun::new("Hi", "v", "o.mp3");
    run.process_ended(ProcessOutcome::Exited { success: false, stderr: "x".to_string() });
    run.process_ended(ProcessOutcome::SpawnFailed("no python".to_string()));
    assert_eq!(synthesis_detail(run.finish()), "Failed to execute edge-tts: no python");
}

#[test]
fn missing_or_unreadable_output() {
    let mut run = EdgeTtsRun::new("Hi", "v", "o.mp3");
    run.process_ended(ProcessOutcome::Exited { success: true, stderr: String::new() });
    run.output_read(OutputOutcome::Missing);
    assert_eq!(synthesis_detail(run.finish()), "Audio file was not generated");

    let mut run = EdgeTtsRun::new("Hi", "v", "o.mp3");
    run.process_ended(ProcessOutcome::SpawnFailed("e".to_string()));
    run.process_ended(ProcessOutcome::Exited { success: true, stderr: String::new() });
    run.output_read(OutputOutcome::ReadFailed("permission denied".to_string()));
    assert_eq!(synthesis_detail(run.finish()), "Failed to read audio file: permission denied");
}
