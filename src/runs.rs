use vstd::prelude::*;

use crate::config::{error_text, is_synthesis_failure, TTSError};
use crate::text::{decimal, decimal_string, replace_all, replace_str};

verus! {

/// Which batch operation a run serves; it names the items in failure messages.
#[derive(Clone, Copy, PartialEq, Eq, Structural, Debug)]
pub enum BatchMode {
    Sequential,
    Concurrent,
}

/// How failure messages name an item of a run in `mode`.
pub open spec fn item_noun(mode: BatchMode) -> Seq<char> {
    match mode {
        BatchMode::Sequential => "batch item"@,
        BatchMode::Concurrent => "concurrent item"@,
    }
}

/// The state of a batch synthesis: how many texts, the audio of those done,
/// and the failure that ended it, if one did.
pub struct BatchView {
    pub total: nat,
    pub done: Seq<Vec<u8>>,
    pub failure: Option<TTSError>,
    pub mode: BatchMode,
}

/// A batch state that a run can reach.
pub open spec fn batch_wf(b: BatchView) -> bool {
    &&& b.done.len() <= b.total
    &&& b.failure is Some ==> b.done.len() < b.total
}

/// The 0-based index of the text to synthesize next: none once every text is
/// done or one has failed.
pub open spec fn next_batch_item(b: BatchView) -> Option<nat> {
    if b.failure is None && b.done.len() < b.total {
        Some(b.done.len())
    } else {
        None
    }
}

/// The batch after the current text's synthesis came out as `outcome`.
pub open spec fn after_batch_item(b: BatchView, outcome: Result<Vec<u8>, TTSError>) -> BatchView {
    match outcome {
        Ok(audio) => BatchView { done: b.done.push(audio), ..b },
        Err(e) => BatchView { failure: Some(e), ..b },
    }
}

/// The detail of the failure of a run whose item at 1-based `position` failed with `e`.
pub open spec fn batch_failure_detail(mode: BatchMode, position: nat, e: TTSError) -> Seq<char> {
    "Failed to synthesize "@ + item_noun(mode) + " "@ + decimal(position) + ": "@ + error_text(e)
}

/// What a finished batch gives: every audio in order, or the detail of the
/// failure that ended it.
pub open spec fn batch_result(b: BatchView) -> Result<Seq<Vec<u8>>, Seq<char>> {
    match b.failure {
        Some(e) => Err(batch_failure_detail(b.mode, b.done.len() + 1, e)),
        None => Ok(b.done),
    }
}

/// Synthesizes a list of texts in order, one at a time, stopping at the first
/// failure. The caller asks `next_item`, synthesizes that text, hands the
/// outcome to `record`, and calls `finish` once `next_item` gives none.
pub struct BatchSynthesis {
    total: usize,
    done: Vec<Vec<u8>>,
    failure: Option<TTSError>,
    mode: BatchMode,
}

impl View for BatchSynthesis {
    type V = BatchView;

    closed spec fn view(&self) -> BatchView {
        BatchView { total: self.total as nat, done: self.done@, failure: self.failure, mode: self.mode }
    }
}

impl BatchSynthesis {
    /// A run over `total` texts, none done yet.
    pub fn new(total: usize, mode: BatchMode) -> (r: Self)
        ensures
            r@ == (BatchView { total: total as nat, done: Seq::empty(), failure: None, mode }),
            batch_wf(r@),
    {
        BatchSynthesis { total, done: Vec::new(), failure: None, mode }
    }

    /// The index of the text to synthesize next, if any.
    pub fn next_item(&self) -> (r: Option<usize>)
        ensures
            match r {
                Some(i) => next_batch_item(self@) == Some(i as nat),
                None => next_batch_item(self@) is None,
            },
    {
        if self.failure.is_none() && self.done.len() < self.total {
            Some(self.done.len())
        } else {
            None
        }
    }

    /// Takes the outcome of synthesizing the current text.
    pub fn record(&mut self, outcome: Result<Vec<u8>, TTSError>)
        requires
            batch_wf(old(self)@),
            next_batch_item(old(self)@) is Some,
        ensures
            final(self)@ == after_batch_item(old(self)@, outcome),
            batch_wf(final(self)@),
    {
        match outcome {
            Ok(audio) => self.done.push(audio),
            Err(e) => self.failure = Some(e),
        }
    }

    /// The audio of every text in order, or a synthesis failure that names the
    /// failed item's 1-based position and its error.
    pub fn finish(self) -> (r: Result<Vec<Vec<u8>>, TTSError>)
        requires
            batch_wf(self@),
            next_batch_item(self@) is None,
        ensures
            match r {
                Ok(v) => batch_result(self@) == Ok::<Seq<Vec<u8>>, Seq<char>>(v@),
                Err(e) => batch_result(self@) matches Err(d) && is_synthesis_failure(e, d),
            },
    {
        match self.failure {
            None => Ok(self.done),
            Some(e) => {
                let mut d = String::from_str("Failed to synthesize ");
                match self.mode {
                    BatchMode::Sequential => d.append("batch item"),
                    BatchMode::Concurrent => d.append("concurrent item"),
                }
                d.append(" ");
                d.append(decimal_string(self.done.len() + 1).as_str());
                d.append(": ");
                d.append(e.message().as_str());
                Err(TTSError::Synthesis(d))
            },
        }
    }
}

/// The state of a batch save: the file name template, the names saved so far,
/// and the failure that ended it, if one did.
pub struct SaveView {
    pub total: nat,
    pub template: Seq<char>,
    pub saved: Seq<Seq<char>>,
    pub failure: Option<TTSError>,
}

/// A save state that a run can reach.
pub open spec fn save_wf(s: SaveView) -> bool {
    &&& s.saved.len() <= s.total
    &&& s.failure is Some ==> s.saved.len() < s.total
}

/// The file name for the item at 1-based `position`: the template with each
/// `{}` replaced by the position in decimal.
pub open spec fn file_name_for(template: Seq<char>, position: nat) -> Seq<char> {
    replace_all(template, "{}"@, decimal(position))
}

/// The 0-based index of the item to save next: none once all are saved or one
/// has failed.
pub open spec fn next_save_item(s: SaveView) -> Option<nat> {
    if s.failure is None && s.saved.len() < s.total {
        Some(s.saved.len())
    } else {
        None
    }
}

/// The save after the current item's write came out as `outcome`.
pub open spec fn after_save_item(s: SaveView, outcome: Result<(), TTSError>) -> SaveView {
    match outcome {
        Ok(()) => SaveView {
            saved: s.saved.push(file_name_for(s.template, s.saved.len() + 1)),
            ..s
        },
        Err(e) => SaveView { failure: Some(e), ..s },
    }
}

/// What a finished save gives: the file names in order, or the detail of the
/// failure that ended it.
pub open spec fn save_result(s: SaveView) -> Result<Seq<Seq<char>>, Seq<char>> {
    match s.failure {
        Some(e) => Err(
            "Failed to save batch item "@ + decimal(s.saved.len() + 1) + ": "@ + error_text(e),
        ),
        None => Ok(s.saved),
    }
}

/// Saves a list of audio items in order, stopping at the first failure. The
/// caller asks `next_item` for the index and file name, writes the file, hands
/// the outcome to `record`, and calls `finish` once `next_item` gives none.
pub struct BatchSave {
    total: usize,
    template: String,
    saved: Vec<String>,
    failure: Option<TTSError>,
}

impl View for BatchSave {
    type V = SaveView;

    closed spec fn view(&self) -> SaveView {
        SaveView {
            total: self.total as nat,
            template: self.template@,
            saved: self.saved@.map_values(|n: String| n@),
            failure: self.failure,
        }
    }
}

impl BatchSave {
    /// A run over `total` items, named after `filename_template`.
    pub fn new(total: usize, filename_template: &str) -> (r: Self)
        ensures
            r@ == (SaveView {
                total: total as nat,
                template: filename_template@,
                saved: Seq::empty(),
                failure: None,
            }),
            save_wf(r@),
    {
        let r = BatchSave {
            total,
            template: String::from_str(filename_template),
            saved: Vec::new(),
            failure: None,
        };
        assert(r@.saved =~= Seq::empty());
        r
    }

    /// The index of the item to save next, with its file name, if any.
    pub fn next_item(&self) -> (r: Option<(usize, String)>)
        requires
            save_wf(self@),
        ensures
            match r {
                Some((i, name)) => next_save_item(self@) == Some(i as nat) && name@
                    == file_name_for(self@.template, i as nat + 1),
                None => next_save_item(self@) is None,
            },
    {
        if self.failure.is_none() && self.saved.len() < self.total {
            let i = self.saved.len();
            let position = decimal_string(i + 1);
            proof {
                reveal_strlit("{}");
            }
            Some((i, replace_str(self.template.as_str(), "{}", position.as_str())))
        } else {
            None
        }
    }

    /// Takes the outcome of writing the current item.
    pub fn record(&mut self, outcome: Result<(), TTSError>)
        requires
            save_wf(old(self)@),
            next_save_item(old(self)@) is Some,
        ensures
            final(self)@ == after_save_item(old(self)@, outcome),
            save_wf(final(self)@),
    {
        match outcome {
            Ok(()) => {
                let position = decimal_string(self.saved.len() + 1);
                proof {
                    reveal_strlit("{}");
                }
                let name = replace_str(self.template.as_str(), "{}", position.as_str());
                let ghost before = self.saved@;
                self.saved.push(name);
                assert(self.saved@.map_values(|n: String| n@) =~= before.map_values(
                    |n: String| n@,
                ).push(name@));
            },
            Err(e) => self.failure = Some(e),
        }
    }

    /// The file names in order, or a synthesis failure that names the failed
    /// item's 1-based position and its error.
    pub fn finish(self) -> (r: Result<Vec<String>, TTSError>)
        requires
            save_wf(self@),
            next_save_item(self@) is None,
        ensures
            match r {
                Ok(v) => save_result(self@) == Ok::<Seq<Seq<char>>, Seq<char>>(
                    v@.map_values(|n: String| n@),
                ),
                Err(e) => save_result(self@) matches Err(d) && is_synthesis_failure(e, d),
            },
    {
        match self.failure {
            None => Ok(self.saved),
            Some(e) => {
                let mut d = String::from_str("Failed to save batch item ");
                d.append(decimal_string(self.saved.len() + 1).as_str());
                d.append(": ");
                d.append(e.message().as_str());
                Err(TTSError::Synthesis(d))
            },
        }
    }
}

/// The state of a synthesis with a fallback voice: the voices, whether the
/// primary voice was tried, and the final outcome once there is one.
pub struct FallbackView {
    pub primary: Seq<char>,
    pub alternate: Option<Seq<char>>,
    pub tried_primary: bool,
    pub outcome: Option<Result<Vec<u8>, TTSError>>,
}

/// A fallback state that a run can reach: once the primary voice is tried,
/// either there is a final outcome or an alternate to try.
pub open spec fn fallback_wf(f: FallbackView) -> bool {
    f.tried_primary && f.outcome is None ==> f.alternate is Some
}

/// The voice to try next: the primary voice first, then the alternate once
/// the primary failed; none once there is a final outcome.
pub open spec fn next_fallback_voice(f: FallbackView) -> Option<Seq<char>> {
    if f.outcome is Some {
        None
    } else if !f.tried_primary {
        Some(f.primary)
    } else {
        f.alternate
    }
}

/// The state after the current attempt came out as `outcome`: it is final
/// unless the primary voice failed and an alternate is there to try.
pub open spec fn after_attempt(f: FallbackView, outcome: Result<Vec<u8>, TTSError>) -> FallbackView {
    if f.tried_primary || outcome is Ok || f.alternate is None {
        FallbackView { tried_primary: true, outcome: Some(outcome), ..f }
    } else {
        FallbackView { tried_primary: true, ..f }
    }
}

/// Synthesizes with a primary voice and, once it fails, a single retry with an
/// alternate voice. The caller asks `next_voice`, synthesizes with it, hands the
/// outcome to `record`, and calls `finish` once `next_voice` gives none.
pub struct FallbackSynthesis {
    primary: String,
    alternate: Option<String>,
    tried_primary: bool,
    outcome: Option<Result<Vec<u8>, TTSError>>,
}

impl View for FallbackSynthesis {
    type V = FallbackView;

    closed spec fn view(&self) -> FallbackView {
        FallbackView {
            primary: self.primary@,
            alternate: match self.alternate {
                Some(a) => Some(a@),
                None => None,
            },
            tried_primary: self.tried_primary,
            outcome: self.outcome,
        }
    }
}

impl FallbackSynthesis {
    /// A synthesis that tries `primary_voice`, then `alternate_voice` if given.
    pub fn new(primary_voice: &str, alternate_voice: Option<&str>) -> (r: Self)
        ensures
            r@ == (FallbackView {
                primary: primary_voice@,
                alternate: crate::markup::opt_view(alternate_voice),
                tried_primary: false,
                outcome: None,
            }),
            fallback_wf(r@),
    {
        let alternate = match alternate_voice {
            Some(a) => Some(String::from_str(a)),
            None => None,
        };
        FallbackSynthesis {
            primary: String::from_str(primary_voice),
            alternate,
            tried_primary: false,
            outcome: None,
        }
    }

    /// The voice to synthesize with next, if any.
    pub fn next_voice(&self) -> (r: Option<String>)
        ensures
            match r {
                Some(v) => next_fallback_voice(self@) == Some(v@),
                None => next_fallback_voice(self@) is None,
            },
    {
        if self.outcome.is_some() {
            None
        } else if !self.tried_primary {
            Some(self.primary.clone())
        } else {
            match &self.alternate {
                Some(a) => Some(a.clone()),
                None => None,
            }
        }
    }

    /// Takes the outcome of the current attempt.
    pub fn record(&mut self, outcome: Result<Vec<u8>, TTSError>)
        requires
            fallback_wf(old(self)@),
            next_fallback_voice(old(self)@) is Some,
        ensures
            final(self)@ == after_attempt(old(self)@, outcome),
            fallback_wf(final(self)@),
    {
        if self.tried_primary || outcome.is_ok() || self.alternate.is_none() {
            self.outcome = Some(outcome);
        }
        self.tried_primary = true;
    }

    /// The final outcome.
    pub fn finish(self) -> (r: Result<Vec<u8>, TTSError>)
        requires
            fallback_wf(self@),
            next_fallback_voice(self@) is None,
        ensures
            self@.outcome == Some(r),
    {
        self.outcome.unwrap()
    }
}

/// A failing text ends a batch: no later text is attempted, and the batch
/// fails naming the failed text's 1-based position and its error.
pub proof fn lemma_batch_stops_at_failure(b: BatchView, e: TTSError)
    requires
        batch_wf(b),
        next_batch_item(b) is Some,
    ensures
        next_batch_item(after_batch_item(b, Err(e))) is None,
        batch_result(after_batch_item(b, Err(e))) == Err::<Seq<Vec<u8>>, Seq<char>>(
            batch_failure_detail(b.mode, next_batch_item(b).unwrap() + 1, e),
        ),
{
}

/// Without an alternate voice, a failure of the primary voice is the final
/// outcome as it came. With an alternate, a failure of the primary leads to
/// exactly one attempt with the alternate, whose outcome is final: when it
/// fails too, the outcome is the alternate's failure.
pub proof fn lemma_fallback_failures(
    primary: Seq<char>,
    alternate: Option<Seq<char>>,
    primary_error: TTSError,
    alternate_error: TTSError,
)
    ensures
        ({
            let start = FallbackView { primary, alternate, tried_primary: false, outcome: None };
            let after_primary = after_attempt(start, Err(primary_error));
            &&& next_fallback_voice(start) == Some(primary)
            &&& alternate is None ==> next_fallback_voice(after_primary) is None
                && after_primary.outcome == Some(Err::<Vec<u8>, TTSError>(primary_error))
            &&& alternate matches Some(a) ==> next_fallback_voice(after_primary) == Some(a)
                && next_fallback_voice(after_attempt(after_primary, Err(alternate_error))) is None
                && after_attempt(after_primary, Err(alternate_error)).outcome == Some(
                Err::<Vec<u8>, TTSError>(alternate_error),
            )
        }),
{
}

} // verus!
