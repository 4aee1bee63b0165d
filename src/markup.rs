use vstd::prelude::*;

use crate::text::{
    chars_of, contains_seq, find_char, find_char_from, lemma_find_char_from, occurs_at, str_eq,
};
use crate::validator::{namespace_marker, version_marker};

verus! {

/// The language tag derived from a voice identifier: its first two `-`
/// separated components joined by `-`, or `en-US` when it has no `-`.
pub open spec fn language_of_voice(voice: Seq<char>) -> Seq<char> {
    let p = find_char_from(voice, '-', 0);
    if p == voice.len() {
        "en-US"@
    } else {
        let q = find_char_from(voice, '-', p + 1);
        voice.subrange(0, p) + "-"@ + voice.subrange(p + 1, q)
    }
}

/// The characters of an optional string.
pub open spec fn opt_view(o: Option<&str>) -> Option<Seq<char>> {
    match o {
        Some(s) => Some(s@),
        None => None,
    }
}

/// ` name="value"` when a value is given, nothing otherwise.
pub open spec fn optional_attr(name: Seq<char>, value: Option<Seq<char>>) -> Seq<char> {
    match value {
        Some(v) => " "@ + name + "=\""@ + v + "\""@,
        None => Seq::empty(),
    }
}

/// A prosody fragment: the attributes given, in the order rate, pitch, volume.
pub open spec fn prosody_fragment(
    text: Seq<char>,
    rate: Option<Seq<char>>,
    pitch: Option<Seq<char>>,
    volume: Option<Seq<char>>,
) -> Seq<char> {
    "<prosody"@ + optional_attr("rate"@, rate) + optional_attr("pitch"@, pitch) + optional_attr(
        "volume"@,
        volume,
    ) + ">"@ + text + "</prosody>"@
}

/// An emphasis fragment.
pub open spec fn emphasis_fragment(text: Seq<char>, level: Seq<char>) -> Seq<char> {
    "<emphasis level=\""@ + level + "\">"@ + text + "</emphasis>"@
}

/// A self-closing break fragment.
pub open spec fn break_fragment(time: Seq<char>) -> Seq<char> {
    "<break time=\""@ + time + "\"/>"@
}

/// A say-as fragment, with its format attribute when one is given.
pub open spec fn say_as_fragment(
    text: Seq<char>,
    interpret_as: Seq<char>,
    format: Option<Seq<char>>,
) -> Seq<char> {
    "<say-as interpret-as=\""@ + interpret_as + "\""@ + optional_attr("format"@, format) + ">"@
        + text + "</say-as>"@
}

/// A phoneme fragment.
pub open spec fn phoneme_fragment(text: Seq<char>, alphabet: Seq<char>, ph: Seq<char>) -> Seq<
    char,
> {
    "<phoneme alphabet=\""@ + alphabet + "\" ph=\""@ + ph + "\">"@ + text + "</phoneme>"@
}

/// A substitution fragment.
pub open spec fn sub_fragment(text: Seq<char>, alias: Seq<char>) -> Seq<char> {
    "<sub alias=\""@ + alias + "\">"@ + text + "</sub>"@
}

/// The text in front of the language tag: the root element's name, the
/// version and namespace markers, and the opening of the language attribute.
pub open spec fn speak_open() -> Seq<char> {
    "<speak"@ + " "@ + version_marker() + " "@ + namespace_marker() + " xml:lang=\""@
}

/// The start of the voice element's tag.
pub open spec fn voice_start() -> Seq<char> {
    "<"@ + "voice"@
}

/// The text between the language tag and the voice identifier.
pub open spec fn voice_open() -> Seq<char> {
    "\">\n    "@ + voice_start() + " name=\""@
}

/// The text between the voice identifier and the fragments.
pub open spec fn content_open() -> Seq<char> {
    "\">\n        "@
}

/// The text after the fragments.
pub open spec fn document_close() -> Seq<char> {
    "\n    "@ + "</voice>"@ + "\n"@ + "</speak>"@
}

/// The document for a language tag, a voice and the concatenated fragments.
pub open spec fn document(lang: Seq<char>, voice: Seq<char>, content: Seq<char>) -> Seq<char> {
    speak_open() + lang + voice_open() + voice + content_open() + content + document_close()
}

/// What a builder holds: the voice, the language tag, the fragments in order.
pub struct BuilderView {
    pub voice: Seq<char>,
    pub lang: Seq<char>,
    pub fragments: Seq<Seq<char>>,
}

impl BuilderView {
    /// The same builder with one more fragment at the end.
    pub open spec fn extended(self, fragment: Seq<char>) -> BuilderView {
        BuilderView { fragments: self.fragments.push(fragment), ..self }
    }

    /// The document that rendering produces.
    pub open spec fn rendered(self) -> Seq<char> {
        document(self.lang, self.voice, self.fragments.flatten())
    }
}

/// Builds a speech markup document one fragment at a time.
pub struct SSMLBuilder {
    voice: String,
    lang: String,
    elements: Vec<String>,
}

impl View for SSMLBuilder {
    type V = BuilderView;

    closed spec fn view(&self) -> BuilderView {
        BuilderView {
            voice: self.voice@,
            lang: self.lang@,
            fragments: self.elements@.map_values(|e: String| e@),
        }
    }
}

impl SSMLBuilder {
    /// A builder for `voice`, with the language tag derived from it.
    pub fn new(voice: &str) -> (r: Self)
        ensures
            r@ == (BuilderView {
                voice: voice@,
                lang: language_of_voice(voice@),
                fragments: Seq::empty(),
            }),
    {
        let lang = Self::extract_language(voice);
        let r = SSMLBuilder { voice: String::from_str(voice), lang, elements: Vec::new() };
        assert(r@.fragments =~= Seq::empty());
        r
    }

    /// A builder for `voice` with an explicit language tag.
    pub fn with_language(voice: &str, lang: &str) -> (r: Self)
        ensures
            r@ == (BuilderView { voice: voice@, lang: lang@, fragments: Seq::empty() }),
    {
        let r = SSMLBuilder {
            voice: String::from_str(voice),
            lang: String::from_str(lang),
            elements: Vec::new(),
        };
        assert(r@.fragments =~= Seq::empty());
        r
    }

    /// Derives the language tag from a voice identifier.
    pub fn extract_language(voice: &str) -> (r: String)
        ensures
            r@ == language_of_voice(voice@),
    {
        let cs = chars_of(voice);
        let p = find_char(&cs, '-', 0);
        proof {
            lemma_find_char_from(voice@, '-', 0);
        }
        if p == cs.len() {
            String::from_str("en-US")
        } else {
            let q = find_char(&cs, '-', p + 1);
            proof {
                lemma_find_char_from(voice@, '-', p + 1);
            }
            let mut r = String::from_str(voice.substring_char(0, p));
            r.append("-");
            r.append(voice.substring_char(p + 1, q));
            r
        }
    }

    fn push_fragment(self, fragment: String) -> (r: Self)
        ensures
            r@ == self@.extended(fragment@),
    {
        let mut b = self;
        b.elements.push(fragment);
        assert(b@.fragments =~= self@.fragments.push(fragment@));
        b
    }

    /// Appends plain text, verbatim.
    pub fn add_text(self, text: &str) -> (r: Self)
        ensures
            r@ == self@.extended(text@),
    {
        self.push_fragment(String::from_str(text))
    }

    /// Appends text under prosody controls; only the attributes given are written.
    pub fn add_prosody(
        self,
        text: &str,
        rate: Option<&str>,
        pitch: Option<&str>,
        volume: Option<&str>,
    ) -> (r: Self)
        ensures
            r@ == self@.extended(
                prosody_fragment(text@, opt_view(rate), opt_view(pitch), opt_view(volume)),
            ),
    {
        let mut f = String::from_str("<prosody");
        push_optional_attr(&mut f, "rate", rate);
        push_optional_attr(&mut f, "pitch", pitch);
        push_optional_attr(&mut f, "volume", volume);
        f.append(">");
        f.append(text);
        f.append("</prosody>");
        self.push_fragment(f)
    }

    /// Appends emphasized text at `level`.
    pub fn add_emphasis(self, text: &str, level: &str) -> (r: Self)
        ensures
            r@ == self@.extended(emphasis_fragment(text@, level@)),
    {
        let mut f = String::from_str("<emphasis level=\"");
        f.append(level);
        f.append("\">");
        f.append(text);
        f.append("</emphasis>");
        self.push_fragment(f)
    }

    /// Appends a pause of duration `time`.
    pub fn add_break(self, time: &str) -> (r: Self)
        ensures
            r@ == self@.extended(break_fragment(time@)),
    {
        let mut f = String::from_str("<break time=\"");
        f.append(time);
        f.append("\"/>");
        self.push_fragment(f)
    }

    /// Appends text with an interpretation hint and an optional format.
    pub fn add_say_as(self, text: &str, interpret_as: &str, format: Option<&str>) -> (r: Self)
        ensures
            r@ == self@.extended(say_as_fragment(text@, interpret_as@, opt_view(format))),
    {
        let mut f = String::from_str("<say-as interpret-as=\"");
        f.append(interpret_as);
        f.append("\"");
        push_optional_attr(&mut f, "format", format);
        f.append(">");
        f.append(text);
        f.append("</say-as>");
        self.push_fragment(f)
    }

    /// Appends text with its pronunciation in `alphabet`.
    pub fn add_phoneme(self, text: &str, alphabet: &str, ph: &str) -> (r: Self)
        ensures
            r@ == self@.extended(phoneme_fragment(text@, alphabet@, ph@)),
    {
        let mut f = String::from_str("<phoneme alphabet=\"");
        f.append(alphabet);
        f.append("\" ph=\"");
        f.append(ph);
        f.append("\">");
        f.append(text);
        f.append("</phoneme>");
        self.push_fragment(f)
    }

    /// Appends text to be spoken as `alias`.
    pub fn add_sub(self, text: &str, alias: &str) -> (r: Self)
        ensures
            r@ == self@.extended(sub_fragment(text@, alias@)),
    {
        let mut f = String::from_str("<sub alias=\"");
        f.append(alias);
        f.append("\">");
        f.append(text);
        f.append("</sub>");
        self.push_fragment(f)
    }

    /// Renders the document: the fragments in order, inside the voice element,
    /// inside the root element.
    pub fn build(self) -> (r: String)
        ensures
            r@ == self@.rendered(),
    {
        let ghost frags = self@.fragments;
        let mut content = String::new();
        let n = self.elements.len();
        for i in 0..n
            invariant
                n == self.elements.len(),
                frags == self@.fragments,
                content@ == frags.take(i as int).flatten(),
        {
            content.append(self.elements[i].as_str());
            proof {
                assert(frags.take(i + 1) =~= frags.take(i as int).push(frags[i as int]));
                frags.take(i as int).lemma_flatten_push(frags[i as int]);
            }
        }
        assert(frags.take(n as int) =~= frags);
        let mut r = String::from_str("<speak");
        r.append(" ");
        r.append("version=\"1.0\"");
        r.append(" ");
        r.append("xmlns=\"http://www.w3.org/2001/10/synthesis\"");
        r.append(" xml:lang=\"");
        r.append(self.lang.as_str());
        r.append("\">\n    ");
        r.append("<");
        r.append("voice");
        r.append(" name=\"");
        r.append(self.voice.as_str());
        r.append("\">\n        ");
        r.append(content.as_str());
        r.append("\n    ");
        r.append("</voice>");
        r.append("\n");
        r.append("</speak>");
        r
    }
}

/// Appends ` name="value"` to `out` when a value is given.
fn push_optional_attr(out: &mut String, name: &str, value: Option<&str>)
    ensures
        final(out)@ == old(out)@ + optional_attr(name@, opt_view(value)),
{
    match value {
        Some(v) => {
            out.append(" ");
            out.append(name);
            out.append("=\"");
            out.append(v);
            out.append("\"");
        },
        None => {
            assert(old(out)@ + optional_attr(name@, opt_view(value)) =~= old(out)@);
        },
    }
}

/// The document for `voice`, with its derived language tag, holding `fragments`.
pub open spec fn voice_document(voice: Seq<char>, fragments: Seq<Seq<char>>) -> Seq<char> {
    BuilderView { voice, lang: language_of_voice(voice), fragments }.rendered()
}

/// The fragments of the pause template: the text up to its first `.`, a one
/// second break, and the rest after that `.`; the whole text when it holds no `.`.
pub open spec fn pause_fragments(text: Seq<char>) -> Seq<Seq<char>> {
    let p = find_char_from(text, '.', 0);
    if p == text.len() {
        seq![text]
    } else {
        seq![text.subrange(0, p), break_fragment("1s"@), text.subrange(p + 1, text.len() as int)]
    }
}

/// The names of the templates, in their listing order.
pub open spec fn template_names() -> Seq<Seq<char>> {
    seq![
        "slow_speech"@,
        "fast_speech"@,
        "whisper"@,
        "excited"@,
        "calm"@,
        "emphasis_strong"@,
        "with_pauses"@,
    ]
}

/// The fragments that the template `name` makes of `text`, if `name` is a template.
pub open spec fn template_fragments(name: Seq<char>, text: Seq<char>) -> Option<Seq<Seq<char>>> {
    if name == "slow_speech"@ {
        Some(seq![prosody_fragment(text, Some("slow"@), None, None)])
    } else if name == "fast_speech"@ {
        Some(seq![prosody_fragment(text, Some("fast"@), None, None)])
    } else if name == "whisper"@ {
        Some(seq![prosody_fragment(text, Some("slow"@), None, Some("x-soft"@))])
    } else if name == "excited"@ {
        Some(seq![prosody_fragment(text, Some("fast"@), Some("high"@), Some("loud"@))])
    } else if name == "calm"@ {
        Some(seq![prosody_fragment(text, Some("slow"@), Some("low"@), Some("soft"@))])
    } else if name == "emphasis_strong"@ {
        Some(seq![emphasis_fragment(text, "strong"@)])
    } else if name == "with_pauses"@ {
        Some(pause_fragments(text))
    } else {
        None
    }
}

/// The message for a name that is not a template.
pub open spec fn unknown_template_message(name: Seq<char>) -> Seq<char> {
    "Unknown template '"@ + name
        + "'. Available: slow_speech, fast_speech, whisper, excited, calm, emphasis_strong, with_pauses"@
}

/// Named presets that produce a document.
pub struct SSMLTemplates;

impl SSMLTemplates {
    /// The document that the template `template_name` makes of `text` for
    /// `voice`; fails on an unknown name.
    pub fn create_from_template(template_name: &str, text: &str, voice: &str) -> (r: Result<
        String,
        String,
    >)
        ensures
            match r {
                Ok(d) => template_fragments(template_name@, text@) matches Some(fs) && d@
                    == voice_document(voice@, fs),
                Err(m) => template_fragments(template_name@, text@) is None && m@
                    == unknown_template_message(template_name@),
            },
    {
        let b = SSMLBuilder::new(voice);
        let d = if str_eq(template_name, "slow_speech") {
            b.add_prosody(text, Some("slow"), None, None)
        } else if str_eq(template_name, "fast_speech") {
            b.add_prosody(text, Some("fast"), None, None)
        } else if str_eq(template_name, "whisper") {
            b.add_prosody(text, Some("slow"), None, Some("x-soft"))
        } else if str_eq(template_name, "excited") {
            b.add_prosody(text, Some("fast"), Some("high"), Some("loud"))
        } else if str_eq(template_name, "calm") {
            b.add_prosody(text, Some("slow"), Some("low"), Some("soft"))
        } else if str_eq(template_name, "emphasis_strong") {
            b.add_emphasis(text, "strong")
        } else if str_eq(template_name, "with_pauses") {
            let cs = chars_of(text);
            let p = find_char(&cs, '.', 0);
            proof {
                lemma_find_char_from(text@, '.', 0);
            }
            if p < cs.len() {
                b.add_text(text.substring_char(0, p)).add_break("1s").add_text(
                    text.substring_char(p + 1, cs.len()),
                )
            } else {
                b.add_text(text)
            }
        } else {
            let mut m = String::from_str("Unknown template '");
            m.append(template_name);
            m.append(
                "'. Available: slow_speech, fast_speech, whisper, excited, calm, emphasis_strong, with_pauses",
            );
            return Err(m);
        };
        assert(template_fragments(template_name@, text@) matches Some(fs) && d@.fragments =~= fs);
        Ok(d.build())
    }

    /// The template names, in their listing order.
    pub fn get_available_templates() -> (r: Vec<&'static str>)
        ensures
            r@.map_values(|n: &str| n@) == template_names(),
    {
        let r = vec![
            "slow_speech",
            "fast_speech",
            "whisper",
            "excited",
            "calm",
            "emphasis_strong",
            "with_pauses",
        ];
        assert(r@.map_values(|n: &str| n@) =~= template_names());
        r
    }
}

/// A document for `voice` holding `text` under the prosody controls given.
pub fn create_ssml(
    text: &str,
    voice: &str,
    rate: Option<&str>,
    pitch: Option<&str>,
    volume: Option<&str>,
) -> (r: String)
    ensures
        r@ == voice_document(
            voice@,
            seq![prosody_fragment(text@, opt_view(rate), opt_view(pitch), opt_view(volume))],
        ),
{
    SSMLBuilder::new(voice).add_prosody(text, rate, pitch, volume).build()
}

/// A document for `voice` holding `text` emphasized at `level`.
pub fn create_emphasis_ssml(text: &str, voice: &str, level: &str) -> (r: String)
    ensures
        r@ == voice_document(voice@, seq![emphasis_fragment(text@, level@)]),
{
    SSMLBuilder::new(voice).add_emphasis(text, level).build()
}

/// The fragments for parts of text with a break between each two neighbours.
pub open spec fn parts_with_breaks(parts: Seq<Seq<char>>, brk: Seq<char>) -> Seq<Seq<char>> {
    parts.map(
        |i: int, p: Seq<char>|
            if i + 1 < parts.len() {
                seq![p, break_fragment(brk)]
            } else {
                seq![p]
            },
    ).flatten()
}

/// A document for `voice` holding the parts in order, with a break of
/// `break_time` between each two neighbours.
pub fn create_break_ssml(text_parts: &[&str], voice: &str, break_time: &str) -> (r: String)
    ensures
        r@ == voice_document(
            voice@,
            parts_with_breaks(text_parts@.map_values(|p: &str| p@), break_time@),
        ),
{
    let ghost parts = text_parts@.map_values(|p: &str| p@);
    let ghost g = |i: int, p: Seq<char>|
        if i + 1 < parts.len() {
            seq![p, break_fragment(break_time@)]
        } else {
            seq![p]
        };
    let mut builder = SSMLBuilder::new(voice);
    let n = text_parts.len();
    for i in 0..n
        invariant
            n == text_parts@.len(),
            parts == text_parts@.map_values(|p: &str| p@),
            g == (|i: int, p: Seq<char>|
                if i + 1 < parts.len() {
                    seq![p, break_fragment(break_time@)]
                } else {
                    seq![p]
                }),
            builder@.voice == voice@,
            builder@.lang == language_of_voice(voice@),
            builder@.fragments == parts.map(g).take(i as int).flatten(),
    {
        let ghost before = builder@.fragments;
        builder = builder.add_text(text_parts[i]);
        if i + 1 < n {
            builder = builder.add_break(break_time);
        }
        proof {
            assert(parts.map(g).take(i + 1) =~= parts.map(g).take(i as int).push(g(i as int, parts[i as int])));
            parts.map(g).take(i as int).lemma_flatten_push(g(i as int, parts[i as int]));
            assert(builder@.fragments =~= before + g(i as int, parts[i as int]));
        }
    }
    assert(parts.map(g).take(n as int) =~= parts.map(g));
    builder.build()
}

/// The pause template leaves a text that holds no `.` as one unmodified text
/// fragment.
pub proof fn lemma_pauses_without_period(text: Seq<char>)
    requires
        !text.contains('.'),
    ensures
        template_fragments("with_pauses"@, text) == Some(seq![text]),
{
    reveal_strlit("slow_speech");
    reveal_strlit("fast_speech");
    reveal_strlit("whisper");
    reveal_strlit("excited");
    reveal_strlit("calm");
    reveal_strlit("emphasis_strong");
    reveal_strlit("with_pauses");
    lemma_find_char_from(text, '.', 0);
    let p = find_char_from(text, '.', 0);
    if p < text.len() {
        assert(text[p] == '.');
    }
    assert("with_pauses"@[0] != "slow_speech"@[0]);
    assert("with_pauses"@[0] != "fast_speech"@[0]);
    assert("with_pauses"@[1] != "whisper"@[1]);
    assert("with_pauses"@[0] != "excited"@[0]);
    assert("with_pauses"@[0] != "calm"@[0]);
    assert("with_pauses"@[0] != "emphasis_strong"@[0]);
}

/// The text of a document up to its first fragment.
pub open spec fn document_head(lang: Seq<char>, voice: Seq<char>) -> Seq<char> {
    speak_open() + lang + voice_open() + voice + content_open()
}

/// Rendering lays the fragments out one after another, in the order they were
/// added, inside a single voice element that names the builder's voice: the
/// fragment at index `k` stands right after the head of the document and the
/// fragments before it.
pub proof fn lemma_render_layout(b: BuilderView, k: int)
    requires
        0 <= k < b.fragments.len(),
    ensures
        b.rendered() == document_head(b.lang, b.voice) + b.fragments.flatten() + document_close(),
        occurs_at(
            b.rendered(),
            b.fragments[k],
            (document_head(b.lang, b.voice).len() + b.fragments.take(k).flatten().len()) as int,
        ),
{
    let fs = b.fragments;
    let head = document_head(b.lang, b.voice);
    assert(fs =~= fs.take(k) + (seq![fs[k]] + fs.skip(k + 1)));
    vstd::seq_lib::lemma_flatten_concat(fs.take(k), seq![fs[k]] + fs.skip(k + 1));
    vstd::seq_lib::lemma_flatten_concat(seq![fs[k]], fs.skip(k + 1));
    seq![fs[k]].lemma_flatten_one_element();
    let before = fs.take(k).flatten();
    let at = (head.len() + before.len()) as int;
    let d = b.rendered();
    assert(d =~= head + before + fs[k] + fs.skip(k + 1).flatten() + document_close());
    assert(d.subrange(at, at + fs[k].len()) =~= fs[k]);
}

/// `c` does not occur in `s` from `i` on, checked one position at a time.
pub open spec fn char_free_from(s: Seq<char>, c: char, i: int) -> bool
    decreases s.len() - i,
{
    if i < 0 || i >= s.len() {
        true
    } else {
        s[i] != c && char_free_from(s, c, i + 1)
    }
}

proof fn lemma_char_free_from(s: Seq<char>, c: char, i: int)
    requires
        0 <= i,
        char_free_from(s, c, i),
    ensures
        forall|j: int| i <= j < s.len() ==> s[j] != c,
    decreases s.len() - i,
{
    if i < s.len() {
        lemma_char_free_from(s, c, i + 1);
    }
}

/// Every `<` in `s` is followed, inside `s`, by a character other than `v`.
pub open spec fn v_clean(s: Seq<char>) -> bool {
    forall|j: int| 0 <= j < s.len() && #[trigger] s[j] == '<' ==> j + 1 < s.len() && s[j + 1] != 'v'
}

/// `v_clean` from position `i` on, one position at a time.
pub open spec fn v_clean_from(s: Seq<char>, i: int) -> bool
    decreases s.len() - i,
{
    if i < 0 || i >= s.len() {
        true
    } else {
        (s[i] == '<' ==> i + 1 < s.len() && s[i + 1] != 'v') && v_clean_from(s, i + 1)
    }
}

proof fn lemma_v_clean_from(s: Seq<char>, i: int)
    requires
        0 <= i,
        v_clean_from(s, i),
    ensures
        forall|j: int| i <= j < s.len() && #[trigger] s[j] == '<' ==> j + 1 < s.len() && s[j + 1] != 'v',
    decreases s.len() - i,
{
    if i < s.len() {
        lemma_v_clean_from(s, i + 1);
    }
}

proof fn lemma_v_clean_concat(x: Seq<char>, y: Seq<char>)
    requires
        v_clean(x),
        v_clean(y),
    ensures
        v_clean(x + y),
{
    assert forall|j: int| 0 <= j < (x + y).len() && #[trigger] (x + y)[j] == '<' implies j + 1 < (x
        + y).len() && (x + y)[j + 1] != 'v' by {
        if j < x.len() {
            assert(x[j] == '<');
        } else {
            assert(y[j - x.len()] == '<');
        }
    }
}

/// The character facts about the fixed text that the voice element's
/// uniqueness rests on.
proof fn lemma_frame_characters()
    ensures
        v_clean(speak_open()),
        v_clean(document_close()),
        forall|j: int| 0 <= j < "\">\n    "@.len() ==> "\">\n    "@[j] != '<',
        forall|j: int| 0 <= j < " name=\""@.len() ==> " name=\""@[j] != '<',
        forall|j: int| 0 <= j < content_open().len() ==> content_open()[j] != '<',
        forall|j: int| 0 <= j < "voice"@.len() ==> "voice"@[j] != '<' && "voice"@[j] != '"' && "voice"@[j] != '\n',
        "\">\n    "@[0] == '"',
        content_open()[0] == '"',
        document_close()[0] == '\n',
        "<"@ =~= seq!['<'],
        "voice"@.len() == 5,
        "voice"@[0] == 'v',
        content_open().len() > 0,
        document_close().len() > 0,
        "\">\n    "@.len() == 7,
{
    reveal_strlit("<speak");
    reveal_strlit(" ");
    reveal_strlit("version=\"1.0\"");
    reveal_strlit("xmlns=\"http://www.w3.org/2001/10/synthesis\"");
    reveal_strlit(" xml:lang=\"");
    reveal_strlit("\">\n    ");
    reveal_strlit("<");
    reveal_strlit("voice");
    reveal_strlit(" name=\"");
    reveal_strlit("\">\n        ");
    reveal_strlit("\n    ");
    reveal_strlit("</voice>");
    reveal_strlit("\n");
    reveal_strlit("</speak>");
    reveal_with_fuel(v_clean_from, 50);
    reveal_with_fuel(char_free_from, 20);
    assert(v_clean_from("<speak"@, 0));
    assert(v_clean_from(" "@, 0));
    assert(v_clean_from(version_marker(), 0));
    assert(v_clean_from(namespace_marker(), 0));
    assert(v_clean_from(" xml:lang=\""@, 0));
    assert(v_clean_from("\n    "@, 0));
    assert(v_clean_from("</voice>"@, 0));
    assert(v_clean_from("\n"@, 0));
    assert(v_clean_from("</speak>"@, 0));
    lemma_v_clean_from("<speak"@, 0);
    lemma_v_clean_from(" "@, 0);
    lemma_v_clean_from(version_marker(), 0);
    lemma_v_clean_from(namespace_marker(), 0);
    lemma_v_clean_from(" xml:lang=\""@, 0);
    lemma_v_clean_from("\n    "@, 0);
    lemma_v_clean_from("</voice>"@, 0);
    lemma_v_clean_from("\n"@, 0);
    lemma_v_clean_from("</speak>"@, 0);
    lemma_v_clean_concat("<speak"@, " "@);
    lemma_v_clean_concat("<speak"@ + " "@, version_marker());
    lemma_v_clean_concat("<speak"@ + " "@ + version_marker(), " "@);
    lemma_v_clean_concat("<speak"@ + " "@ + version_marker() + " "@, namespace_marker());
    lemma_v_clean_concat(
        "<speak"@ + " "@ + version_marker() + " "@ + namespace_marker(),
        " xml:lang=\""@,
    );
    lemma_v_clean_concat("\n    "@, "</voice>"@);
    lemma_v_clean_concat("\n    "@ + "</voice>"@, "\n"@);
    lemma_v_clean_concat("\n    "@ + "</voice>"@ + "\n"@, "</speak>"@);
    assert(char_free_from("\">\n    "@, '<', 0));
    assert(char_free_from(" name=\""@, '<', 0));
    assert(char_free_from(content_open(), '<', 0));
    assert(char_free_from("voice"@, '<', 0));
    assert(char_free_from("voice"@, '"', 0));
    assert(char_free_from("voice"@, '\n', 0));
    lemma_char_free_from("\">\n    "@, '<', 0);
    lemma_char_free_from(" name=\""@, '<', 0);
    lemma_char_free_from(content_open(), '<', 0);
    lemma_char_free_from("voice"@, '<', 0);
    lemma_char_free_from("voice"@, '"', 0);
    lemma_char_free_from("voice"@, '\n', 0);
    assert(document_close()[0] == "\n    "@[0]);
}

/// Where the voice element's tag starts in a document.
pub open spec fn voice_tag_position(lang: Seq<char>) -> int {
    (speak_open().len() + lang.len() + "\">\n    "@.len()) as int
}

/// A rendered document holds the voice element's start tag exactly once, at
/// the voice element that names the voice, unless the language tag, the voice
/// or the concatenated fragments spell that tag out themselves.
pub proof fn lemma_single_voice_element(lang: Seq<char>, voice: Seq<char>, content: Seq<char>, i: int)
    requires
        !contains_seq(lang, voice_start()),
        !contains_seq(voice, voice_start()),
        !contains_seq(content, voice_start()),
    ensures
        occurs_at(document(lang, voice, content), voice_start(), i) <==> i == voice_tag_position(lang),
{
    lemma_frame_characters();
    let d = document(lang, voice, content);
    let n = voice_start();
    let b1 = "\">\n    "@;
    let b3 = " name=\""@;
    let o1 = speak_open().len() as int;
    let o2 = o1 + lang.len();
    let p = o2 + b1.len();
    let o3 = o2 + voice_open().len();
    let o4 = o3 + voice.len();
    let o5 = o4 + content_open().len();
    let o6 = o5 + content.len();
    assert(n.len() == 6);
    assert(d.len() == o6 + document_close().len());
    assert(d.subrange(p, p + 6) =~= n);
    if occurs_at(d, n, i) && i != p {
        let w = d.subrange(i, i + 6);
        assert(w[0] == d[i] && w[1] == d[i + 1]);
        assert(d[i] == '<' && d[i + 1] == 'v');
        if i < o1 {
            assert(d[i] == speak_open()[i]);
            assert(d[i + 1] == speak_open()[i + 1]);
        } else if i < o2 {
            if i + 6 <= o2 {
                assert(lang.subrange(i - o1, i - o1 + 6) =~= w);
                assert(occurs_at(lang, n, i - o1));
            } else {
                assert(d[o2] == b1[0]);
                assert(w[o2 - i] == d[o2]);
                assert(n[o2 - i] == "voice"@[o2 - i - 1]);
            }
        } else if i < o3 {
            if i < p {
                assert(d[i] == b1[i - o2]);
            } else if i < p + 6 {
                assert(d[i] == "voice"@[i - p - 1]);
            } else {
                assert(d[i] == b3[i - p - 6]);
            }
        } else if i < o4 {
            if i + 6 <= o4 {
                assert(voice.subrange(i - o3, i - o3 + 6) =~= w);
                assert(occurs_at(voice, n, i - o3));
            } else {
                assert(d[o4] == content_open()[0]);
                assert(w[o4 - i] == d[o4]);
                assert(n[o4 - i] == "voice"@[o4 - i - 1]);
            }
        } else if i < o5 {
            assert(d[i] == content_open()[i - o4]);
        } else if i < o6 {
            if i + 6 <= o6 {
                assert(content.subrange(i - o5, i - o5 + 6) =~= w);
                assert(occurs_at(content, n, i - o5));
            } else {
                assert(d[o6] == document_close()[0]);
                assert(w[o6 - i] == d[o6]);
                assert(n[o6 - i] == "voice"@[o6 - i - 1]);
            }
        } else {
            assert(d[i] == document_close()[i - o6]);
            assert(d[i + 1] == document_close()[i + 1 - o6]);
        }
    }
}

} // verus!
