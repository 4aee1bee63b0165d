use vstd::prelude::*;

use crate::config::{is_default_config, is_synthesis_failure, TTSConfig, TTSError};
use crate::markup::{
    create_break_ssml, emphasis_fragment, opt_view, parts_with_breaks, prosody_fragment,
    voice_document, BuilderView, SSMLBuilder, language_of_voice,
};
use crate::validator::{failure_message, validate_ssml, validation_report};
use crate::voice::{serves_language, Voice};

verus! {

/// What a client holds: its settings and the voices it has cached, if any.
pub struct ClientView {
    pub config: TTSConfig,
    pub cache: Option<Seq<Voice>>,
}

/// The cached voices that answer a listing, or `None` when the service must be asked.
pub open spec fn cached_answer(c: ClientView, force: bool) -> Option<Seq<Voice>> {
    if c.config.cache_voices && !force {
        c.cache
    } else {
        None
    }
}

/// The client after the service answered a listing with `voices`.
pub open spec fn after_fetch(c: ClientView, voices: Seq<Voice>) -> ClientView {
    if c.config.cache_voices {
        ClientView { cache: Some(voices), ..c }
    } else {
        c
    }
}

/// The client after its cache was discarded.
pub open spec fn cleared(c: ClientView) -> ClientView {
    ClientView { cache: None, ..c }
}

/// How a listing of voices is answered.
pub enum VoiceListing {
    /// From the cache, without asking the service.
    Cached(Vec<Voice>),
    /// The service must be asked; hand its answer to `finish_list_voices`.
    Fetch,
}

/// Drives a speech service: settings, the voice cache, and the decisions
/// around each request to the service.
pub struct TTSClient {
    config: TTSConfig,
    voices_cache: Option<Vec<Voice>>,
}

impl View for TTSClient {
    type V = ClientView;

    closed spec fn view(&self) -> ClientView {
        ClientView {
            config: self.config,
            cache: match self.voices_cache {
                Some(v) => Some(v@),
                None => None,
            },
        }
    }
}

fn copy_voices(v: &Vec<Voice>) -> (r: Vec<Voice>)
    ensures
        r@ == v@,
{
    let r = v.clone();
    assert(r@ =~= v@);
    r
}

impl TTSClient {
    /// A client with `config`, or with the default settings; nothing cached.
    pub fn new(config: Option<TTSConfig>) -> (r: Self)
        ensures
            r@.cache is None,
            match config {
                Some(c) => r@.config == c,
                None => is_default_config(r@.config),
            },
    {
        let config = match config {
            Some(c) => c,
            None => TTSConfig::default(),
        };
        TTSClient { config, voices_cache: None }
    }

    /// The client's settings.
    pub fn config(&self) -> (r: &TTSConfig)
        ensures
            *r == self@.config,
    {
        &self.config
    }

    /// Decides how to answer a listing of the voices: from the cache when
    /// caching is on, a list is cached and `force` is not set; otherwise the
    /// service must be asked.
    pub fn list_voices(&self, force: bool) -> (r: VoiceListing)
        ensures
            match r {
                VoiceListing::Cached(v) => cached_answer(self@, force) == Some(v@),
                VoiceListing::Fetch => cached_answer(self@, force) is None,
            },
    {
        if self.config.cache_voices && !force {
            match &self.voices_cache {
                Some(v) => {
                    return VoiceListing::Cached(copy_voices(v));
                },
                None => {},
            }
        }
        VoiceListing::Fetch
    }

    /// Takes the service's answer to a listing: a list of voices is returned and,
    /// when caching is on, cached; a failure is returned as it came.
    pub fn finish_list_voices(&mut self, fetched: Result<Vec<Voice>, TTSError>) -> (r: Result<
        Vec<Voice>,
        TTSError,
    >)
        ensures
            match fetched {
                Ok(v) => r matches Ok(w) && w@ == v@ && final(self)@ == after_fetch(old(self)@, v@),
                Err(e) => r == Err::<Vec<Voice>, TTSError>(e) && final(self)@ == old(self)@,
            },
    {
        match fetched {
            Ok(voices) => {
                if self.config.cache_voices {
                    self.voices_cache = Some(copy_voices(&voices));
                }
                Ok(voices)
            },
            Err(e) => Err(e),
        }
    }

    /// The voices of `voices` that serve `language`, in their order.
    pub fn get_voices_by_language(voices: &Vec<Voice>, language: &str) -> (r: Vec<Voice>)
        ensures
            r@ == voices@.filter(|v: Voice| serves_language(v, language@)),
    {
        let ghost pred = |v: Voice| serves_language(v, language@);
        let mut r: Vec<Voice> = Vec::new();
        let n = voices.len();
        for i in 0..n
            invariant
                n == voices.len(),
                pred == (|v: Voice| serves_language(v, language@)),
                r@ == voices@.take(i as int).filter(pred),
        {
            proof {
                reveal(Seq::filter);
                assert(voices@.take(i + 1).drop_last() =~= voices@.take(i as int));
                assert(voices@.take(i + 1).last() == voices@[i as int]);
            }
            if voices[i].matches_language(language) {
                r.push(voices[i].clone());
            }
        }
        assert(voices@.take(n as int) =~= voices@);
        r
    }

    /// Discards the cached voices, so that the next listing asks the service.
    pub fn clear_voice_cache(&mut self)
        ensures
            final(self)@ == cleared(old(self)@),
    {
        self.voices_cache = None;
    }

    /// A document for `voice` holding `text` under the prosody controls given.
    pub fn create_prosody_ssml(
        &self,
        text: &str,
        voice: &str,
        rate: Option<&str>,
        pitch: Option<&str>,
        volume: Option<&str>,
    ) -> (r: String)
        ensures
            r@ == voice_document(
                voice@,
                seq![prosody_fragment(text@, opt_view(rate), opt_view(pitch), opt_view(volume))],
            ),
    {
        crate::markup::create_ssml(text, voice, rate, pitch, volume)
    }

    /// A document for `voice` holding `text` emphasized at `emphasis_level`.
    pub fn create_emphasis_ssml(&self, text: &str, voice: &str, emphasis_level: &str) -> (r:
        String)
        ensures
            r@ == voice_document(voice@, seq![emphasis_fragment(text@, emphasis_level@)]),
    {
        crate::markup::create_emphasis_ssml(text, voice, emphasis_level)
    }

    /// A document for `voice` holding the parts with a break between each two.
    pub fn create_break_ssml(&self, text_parts: &[&str], voice: &str, break_time: &str) -> (r:
        String)
        ensures
            r@ == voice_document(
                voice@,
                parts_with_breaks(text_parts@.map_values(|p: &str| p@), break_time@),
            ),
    {
        create_break_ssml(text_parts, voice, break_time)
    }

    /// A fresh builder for `voice`.
    pub fn get_ssml_builder(&self, voice: &str) -> (r: SSMLBuilder)
        ensures
            r@ == (BuilderView {
                voice: voice@,
                lang: language_of_voice(voice@),
                fragments: Seq::empty(),
            }),
    {
        SSMLBuilder::new(voice)
    }

    /// Strict validation of a document about to be sent: fails with the joined
    /// violations as a synthesis failure.
    pub fn validate_ssml(&self, ssml: &str) -> (r: Result<(), TTSError>)
        ensures
            match r {
                Ok(()) => validation_report(ssml@).len() == 0,
                Err(e) => validation_report(ssml@).len() > 0 && is_synthesis_failure(
                    e,
                    failure_message(validation_report(ssml@)),
                ),
            },
    {
        match validate_ssml(ssml, true) {
            Ok(_) => Ok(()),
            Err(m) => Err(TTSError::Synthesis(m)),
        }
    }

    /// What must hold before `text` goes to the synthesis service: in markup
    /// mode, the document must pass strict validation.
    pub fn prepare_synthesis(&self, text: &str, use_ssml: bool) -> (r: Result<(), TTSError>)
        ensures
            match r {
                Ok(()) => use_ssml ==> validation_report(text@).len() == 0,
                Err(e) => use_ssml && validation_report(text@).len() > 0 && is_synthesis_failure(
                    e,
                    failure_message(validation_report(text@)),
                ),
            },
    {
        if use_ssml {
            self.validate_ssml(text)
        } else {
            Ok(())
        }
    }
}

/// With caching on, once the service has answered a listing, the next
/// listing that is not forced is answered from the cache with that answer;
/// once the cache is cleared, a listing asks the service again.
pub proof fn lemma_listing_asks_once(c: ClientView, voices: Seq<Voice>, force: bool)
    requires
        c.config.cache_voices,
    ensures
        cached_answer(after_fetch(c, voices), false) == Some(voices),
        cached_answer(cleared(after_fetch(c, voices)), force) is None,
{
}

} // verus!
