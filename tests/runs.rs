use hello_edge_tts::config::TTSError;
use hello_edge_tts::{BatchMode, BatchSave, BatchSynthesis, FallbackSynthesis};

fn fail(m: &str) -> TTSError {
    TTSError::Synthesis(m.to_string())
}

/// Runs a batch against a service that fails on the texts in `failing`,
/// returning the result and the texts that were attempted.
fn run_batch(texts: &[&str], failing: &[&str], mode: BatchMode) -> (Result<Vec<Vec<u8>>, TTSError>, Vec<String>) {
    let mut run = BatchSynthesis::new(texts.len(), mode);
    let mut attempted = Vec::new();
    while let Some(i) = run.next_item() {
        attempted.push(texts[i].to_string());
        if failing.contains(&texts[i]) {
            run.record(Err(fail("backend down")));
        } else {
            run.record(Ok(texts[i].as_bytes().to_vec()));
        }
    }
    (run.finish(), attempted)
}

#[test]
fn batch_stops_at_second_item() {
    let (r, attempted) = run_batch(&["a", "b", "c"], &["b"], BatchMode::Sequential);
    assert_eq!(attempted, vec!["a".to_string(), "b".to_string()]);
    match r {
        Err(TTSError::Synthesis(m)) => assert_eq!(m, "Failed to synthesize batch item 2: TTS synthesis failed: backend down"),
        other => panic!("unexpected {:?}", other),
    }
}

#[test]
fn batch_succeeds_in_order() {
    let (r, attempted) = run_batch(&["a", "bb", "ccc"], &[], BatchMode::Sequential);
    assert_eq!(attempted.len(), 3);
    assert_eq!(r.unwrap(), vec![b"a".to_vec(), b"bb".to_vec(), b"ccc".to_vec()]);
}

#[test]
fn empty_batch() {
    let (r, attempted) = run_batch(&[], &[], BatchMode::Sequential);
    assert!(attempted.is_empty());
    assert!(r.unwrap().is_empty());
}

#[test]
fn concurrent_batch_names_its_items() {
    let texts: Vec<String> = (0..12).map(|i| format!("t{}", i)).collect();
    let refs: Vec<&str> = texts.iter().map(|s| s.as_str()).collect();
    let (r, attempted) = run_batch(&refs, &["t10"], BatchMode::Concurrent);
    assert_eq!(attempted.len(), 11);
    match r {
        Err(TTSError::Synthesis(m)) => assert_eq!(m, "Failed to synthesize concurrent item 11: TTS synthesis failed: backend down"),
        other => panic!("unexpected {:?}", other),
    }
}

#[test]
fn save_names_files_by_position() {
    let mut run = BatchSave::new(3, "out/{}_clip_{}.mp3");
    let mut names = Vec::new();
    while let Some((i, name)) = run.next_item() {
        assert_eq!(i, names.len());
        names.push(name);
        run.record(Ok(()));
    }
    assert_eq!(names, vec!["out/1_clip_1.mp3", "out/2_clip_2.mp3", "out/3_clip_3.mp3"]);
    assert_eq!(run.finish().unwrap(), names);
}

#[test]
fn save_stops_at_failure() {
    let mut run = BatchSave::new(4, "item.mp3");
    let mut writes = 0;
    while let Some((i, name)) = run.next_item() {
        assert_eq!(name, "item.mp3");
        writes += 1;
        if i == 1 {
            run.record(Err(TTSError::Io("disk full".to_string())));
        } else {
            run.record(Ok(()));
        }
    }
    assert_eq!(writes, 2);
    match run.finish() {
        Err(TTSError::Synthesis(m)) => assert_eq!(m, "Failed to save batch item 2: IO error: disk full"),
        other => panic!("unexpected {:?}", other),
    }
}

fn run_fallback(primary: &str, alternate: Option<&str>, ok_voice: Option<&str>) -> (Result<Vec<u8>, TTSError>, Vec<String>) {
    let mut f = FallbackSynthesis::new(primary, alternate);
    let mut tried = Vec::new();
    while let Some(v) = f.next_voice() {
        tried.push(v.clone());
        if Some(v.as_str()) == ok_voice {
            f.record(Ok(vec![1, 2, 3]));
        } else {
            f.record(Err(fail(&format!("{} failed", v))));
        }
    }
    (f.finish(), tried)
}

#[test]
fn fallback_without_alternate_returns_primary_failure() {
    let (r, tried) = run_fallback("p", None, None);
    assert_eq!(tried, vec!["p".to_string()]);
    match r {
        Err(TTSError::Synthesis(m)) => assert_eq!(m, "p failed"),
        other => panic!("unexpected {:?}", other),
    }
}

#[test]
fn fallback_returns_alternate_failure() {
    let (r, tried) = run_fallback("p", Some("a"), None);
    assert_eq!(tried, vec!["p".to_string(), "a".to_string()]);
    match r {
        Err(TTSError::Synthesis(m)) => assert_eq!(m, "a failed"),
        other => panic!("unexpected {:?}", other),
    }
}

#[test]
fn fallback_uses_alternate_once() {
    let (r, tried) = run_fallback("p", Some("a"), Some("a"));
    assert_eq!(tried.len(), 2);
    assert_eq!(r.unwrap(), vec![1, 2, 3]);
    let (r, tried) = run_fallback("p", Some("a"), Some("p"));
    assert_eq!(tried, vec!["p".to_string()]);
    assert!(r.is_ok());
}
