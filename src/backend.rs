use vstd::prelude::*;

use crate::config::{is_synthesis_failure, TTSError};

verus! {

/// Where a synthesis through the edge-tts command line tool stands.
#[derive(Clone, Copy, PartialEq, Eq, Structural, Debug)]
pub enum EdgeStage {
    /// The `edge-tts` program is to be run.
    Direct,
    /// The direct run failed; `python -m edge_tts` is to be run.
    Python,
    /// A run succeeded; the audio file it wrote is to be read.
    Read,
    /// There is a final outcome.
    Done,
}

/// How a run of the tool ended.
pub enum ProcessOutcome {
    /// The process ran and exited; with whether it succeeded and what it wrote
    /// to its error stream.
    Exited { success: bool, stderr: String },
    /// The process could not be started; with the reason.
    SpawnFailed(String),
}

/// What reading the audio file gave.
pub enum OutputOutcome {
    /// No file was there.
    Missing,
    /// The file's bytes.
    Read(Vec<u8>),
    /// The file was there but could not be read; with the reason.
    ReadFailed(String),
}

/// What the caller is to do next.
pub enum EdgeTtsAction {
    /// Run `program` with `args` and hand how it ended to `process_ended`.
    Run { program: String, args: Vec<String> },
    /// Read the audio file and hand what came of it to `output_read`.
    ReadOutput,
    /// Nothing: `finish` gives the outcome.
    Finished,
}

/// The state of a synthesis through the tool.
pub struct EdgeTtsView {
    pub text: Seq<char>,
    pub voice: Seq<char>,
    pub output_path: Seq<char>,
    pub stage: EdgeStage,
    pub outcome: Option<Result<Vec<u8>, TTSError>>,
}

/// A state that a synthesis can reach: there is an outcome exactly when it is over.
pub open spec fn edge_wf(s: EdgeTtsView) -> bool {
    (s.stage == EdgeStage::Done) == (s.outcome is Some)
}

/// The arguments that ask the tool to speak `text` with `voice` into `path`.
pub open spec fn tool_args(voice: Seq<char>, text: Seq<char>, path: Seq<char>) -> Seq<Seq<char>> {
    seq!["--voice"@, voice, "--text"@, text, "--write-media"@, path]
}

/// The program and arguments of the run at `stage`.
pub open spec fn run_command(s: EdgeTtsView) -> Option<(Seq<char>, Seq<Seq<char>>)> {
    match s.stage {
        EdgeStage::Direct => Some(("edge-tts"@, tool_args(s.voice, s.text, s.output_path))),
        EdgeStage::Python => Some(
            ("python"@, seq!["-m"@, "edge_tts"@] + tool_args(s.voice, s.text, s.output_path)),
        ),
        _ => None,
    }
}

/// The state after a run ended with `o`: a successful run leads to reading
/// the file; a failed direct run leads to the python run; a failed python run
/// ends the synthesis with a failure that carries the reason.
pub open spec fn after_run(s: EdgeTtsView, o: ProcessOutcome) -> (EdgeStage, Option<Seq<char>>) {
    match o {
        ProcessOutcome::Exited { success: true, .. } => (EdgeStage::Read, None),
        ProcessOutcome::Exited { success: false, stderr } => if s.stage == EdgeStage::Direct {
            (EdgeStage::Python, None)
        } else {
            (EdgeStage::Done, Some("Edge TTS failed: "@ + stderr@))
        },
        ProcessOutcome::SpawnFailed(reason) => if s.stage == EdgeStage::Direct {
            (EdgeStage::Python, None)
        } else {
            (EdgeStage::Done, Some("Failed to execute edge-tts: "@ + reason@))
        },
    }
}

/// The failure detail after reading the file gave `o`, or none when it gave audio.
pub open spec fn read_failure(o: OutputOutcome) -> Option<Seq<char>> {
    match o {
        OutputOutcome::Missing => Some("Audio file was not generated"@),
        OutputOutcome::Read(_) => None,
        OutputOutcome::ReadFailed(reason) => Some("Failed to read audio file: "@ + reason@),
    }
}

/// Synthesizes speech through the edge-tts tool: runs `edge-tts`, falls back
/// to `python -m edge_tts` when that fails, then reads the file the tool wrote.
pub struct EdgeTtsRun {
    text: String,
    voice: String,
    output_path: String,
    stage: EdgeStage,
    outcome: Option<Result<Vec<u8>, TTSError>>,
}

impl View for EdgeTtsRun {
    type V = EdgeTtsView;

    closed spec fn view(&self) -> EdgeTtsView {
        EdgeTtsView {
            text: self.text@,
            voice: self.voice@,
            output_path: self.output_path@,
            stage: self.stage,
            outcome: self.outcome,
        }
    }
}

fn push_str(v: &mut Vec<String>, s: &str)
    ensures
        final(v)@.map_values(|a: String| a@) == old(v)@.map_values(|a: String| a@).push(s@),
{
    v.push(String::from_str(s));
    assert(v@.map_values(|a: String| a@) =~= old(v)@.map_values(|a: String| a@).push(s@));
}

impl EdgeTtsRun {
    /// A synthesis of `text` with `voice`, with the tool writing to `output_path`.
    pub fn new(text: &str, voice: &str, output_path: &str) -> (r: Self)
        ensures
            r@ == (EdgeTtsView {
                text: text@,
                voice: voice@,
                output_path: output_path@,
                stage: EdgeStage::Direct,
                outcome: None,
            }),
            edge_wf(r@),
    {
        EdgeTtsRun {
            text: String::from_str(text),
            voice: String::from_str(voice),
            output_path: String::from_str(output_path),
            stage: EdgeStage::Direct,
            outcome: None,
        }
    }

    /// What to do next.
    pub fn next_action(&self) -> (r: EdgeTtsAction)
        ensures
            match r {
                EdgeTtsAction::Run { program, args } => run_command(self@) == Some(
                    (program@, args@.map_values(|a: String| a@)),
                ),
                EdgeTtsAction::ReadOutput => self@.stage == EdgeStage::Read,
                EdgeTtsAction::Finished => self@.stage == EdgeStage::Done,
            },
    {
        match self.stage {
            EdgeStage::Read => EdgeTtsAction::ReadOutput,
            EdgeStage::Done => EdgeTtsAction::Finished,
            _ => {
                let python = self.stage == EdgeStage::Python;
                let mut args: Vec<String> = Vec::new();
                if python {
                    push_str(&mut args, "-m");
                    push_str(&mut args, "edge_tts");
                }
                push_str(&mut args, "--voice");
                push_str(&mut args, self.voice.as_str());
                push_str(&mut args, "--text");
                push_str(&mut args, self.text.as_str());
                push_str(&mut args, "--write-media");
                push_str(&mut args, self.output_path.as_str());
                let program = if python {
                    String::from_str("python")
                } else {
                    String::from_str("edge-tts")
                };
                proof {
                    let tail = tool_args(self@.voice, self@.text, self@.output_path);
                    if python {
                        assert(args@.map_values(|a: String| a@) =~= seq!["-m"@, "edge_tts"@]
                            + tail);
                    } else {
                        assert(args@.map_values(|a: String| a@) =~= tail);
                    }
                }
                EdgeTtsAction::Run { program, args }
            },
        }
    }

    /// Takes how the current run ended.
    pub fn process_ended(&mut self, o: ProcessOutcome)
        requires
            edge_wf(old(self)@),
            old(self)@.stage == EdgeStage::Direct || old(self)@.stage == EdgeStage::Python,
        ensures
            edge_wf(final(self)@),
            final(self)@.text == old(self)@.text,
            final(self)@.voice == old(self)@.voice,
            final(self)@.output_path == old(self)@.output_path,
            final(self)@.stage == after_run(old(self)@, o).0,
            match after_run(old(self)@, o).1 {
                Some(d) => final(self)@.outcome matches Some(Err(e)) && is_synthesis_failure(e, d),
                None => final(self)@.outcome is None,
            },
    {
        let direct = self.stage == EdgeStage::Direct;
        match o {
            ProcessOutcome::Exited { success, stderr } => {
                if success {
                    self.stage = EdgeStage::Read;
                } else if direct {
                    self.stage = EdgeStage::Python;
                } else {
                    let mut d = String::from_str("Edge TTS failed: ");
                    d.append(stderr.as_str());
                    self.stage = EdgeStage::Done;
                    self.outcome = Some(Err(TTSError::Synthesis(d)));
                }
            },
            ProcessOutcome::SpawnFailed(reason) => {
                if direct {
                    self.stage = EdgeStage::Python;
                } else {
                    let mut d = String::from_str("Failed to execute edge-tts: ");
                    d.append(reason.as_str());
                    self.stage = EdgeStage::Done;
                    self.outcome = Some(Err(TTSError::Synthesis(d)));
                }
            },
        }
    }

    /// Takes what reading the audio file gave; the synthesis is then over.
    pub fn output_read(&mut self, o: OutputOutcome)
        requires
            old(self)@.stage == EdgeStage::Read,
        ensures
            edge_wf(final(self)@),
            final(self)@.stage == EdgeStage::Done,
            match o {
                OutputOutcome::Read(audio) => final(self)@.outcome == Some(
                    Ok::<Vec<u8>, TTSError>(audio),
                ),
                _ => read_failure(o) matches Some(d) && final(self)@.outcome matches Some(Err(e))
                    && is_synthesis_failure(e, d),
            },
    {
        let r = match o {
            OutputOutcome::Missing => Err(
                TTSError::Synthesis(String::from_str("Audio file was not generated")),
            ),
            OutputOutcome::Read(audio) => Ok(audio),
            OutputOutcome::ReadFailed(reason) => {
                let mut d = String::from_str("Failed to read audio file: ");
                d.append(reason.as_str());
                Err(TTSError::Synthesis(d))
            },
        };
        self.stage = EdgeStage::Done;
        self.outcome = Some(r);
    }

    /// The final outcome.
    pub fn finish(self) -> (r: Result<Vec<u8>, TTSError>)
        requires
            edge_wf(self@),
            self@.stage == EdgeStage::Done,
        ensures
            self@.outcome == Some(r),
    {
        self.outcome.unwrap()
    }
}

} // verus!
