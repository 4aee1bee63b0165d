use vstd::prelude::*;

use crate::text::{
    chars_of, contains_exec, contains_seq, ends_with_exec, ends_with_seq, find_char,
    find_char_from, is_white_space, join_strings, join_with, lemma_find_char_from,
    lemma_white_run_end, occurs_at, occurs_at_exec, same_chars, sub_chars, views, white_run_end,
    white_run_end_exec, white_space,
};

use crate::markup::{content_open, document, document_close, speak_open, voice_open};

verus! {

/// The elements whose attributes are checked.
#[derive(Clone, Copy, PartialEq, Eq, Structural)]
pub enum ElementKind {
    Prosody,
    Emphasis,
    Break,
}

/// Where the pattern `TAG\s+([^>]+)>` (or `TAG\s+([^>]+)/>` when `slash`)
/// matches at `i`, with the longest white space run the pattern's priority
/// rules give: the bounds of the attribute block and the position after the match.
pub open spec fn block_match(s: Seq<char>, tag: Seq<char>, slash: bool, i: int) -> Option<
    (int, int, int),
> {
    let a = i + tag.len();
    if !(occurs_at(s, tag, i) && a < s.len() && is_white_space(s[a])) {
        None
    } else {
        let m = find_char_from(s, '>', a);
        let e = if slash {
            m - 1
        } else {
            m
        };
        if m >= s.len() || (slash && s[e] != '/') {
            None
        } else {
            let w = white_run_end(s, a);
            if w < e {
                Some((w, e, m + 1))
            } else if e >= a + 2 {
                Some((e - 1, e, m + 1))
            } else {
                None
            }
        }
    }
}

/// Where the pattern `<emphasis\s+level="([^"]+)"` matches at `i`: the bounds
/// of the level value and the position after the match.
pub open spec fn level_match(s: Seq<char>, i: int) -> Option<(int, int, int)> {
    let a = i + "<emphasis"@.len();
    if !(occurs_at(s, "<emphasis"@, i) && a < s.len() && is_white_space(s[a])) {
        None
    } else {
        let w = white_run_end(s, a);
        let v = w + "level=\""@.len();
        if !occurs_at(s, "level=\""@, w) {
            None
        } else {
            let q = find_char_from(s, '"', v);
            if v < q < s.len() {
                Some((v, q, q + 1))
            } else {
                None
            }
        }
    }
}

/// Where an element of `kind` matches at `i`.
pub open spec fn element_match(s: Seq<char>, kind: ElementKind, i: int) -> Option<(int, int, int)> {
    match kind {
        ElementKind::Prosody => block_match(s, "<prosody"@, false, i),
        ElementKind::Emphasis => level_match(s, i),
        ElementKind::Break => block_match(s, "<break"@, true, i),
    }
}

/// A match lies inside `s` and ends after it starts.
pub proof fn lemma_element_match(s: Seq<char>, kind: ElementKind, i: int)
    requires
        0 <= i < s.len(),
    ensures
        element_match(s, kind, i) matches Some((lo, hi, next)) ==> i < lo <= hi < next <= s.len(),
{
    match kind {
        ElementKind::Emphasis => {
            let a = i + "<emphasis"@.len();
            if occurs_at(s, "<emphasis"@, i) && a < s.len() {
                lemma_white_run_end(s, a);
                let w = white_run_end(s, a);
                if occurs_at(s, "level=\""@, w) {
                    lemma_find_char_from(s, '"', w + "level=\""@.len());
                }
            }
        },
        _ => {
            let tag = if kind == ElementKind::Prosody {
                "<prosody"@
            } else {
                "<break"@
            };
            let a = i + tag.len();
            if occurs_at(s, tag, i) && a < s.len() {
                lemma_white_run_end(s, a);
                lemma_find_char_from(s, '>', a);
            }
        },
    }
}

/// What each match of `kind` captures, scanning from `i`: leftmost matches
/// first, each search resuming after the previous match.
pub open spec fn captures_from(s: Seq<char>, kind: ElementKind, i: int) -> Seq<Seq<char>>
    decreases s.len() - i,
{
    if i < 0 || i >= s.len() {
        Seq::empty()
    } else {
        match element_match(s, kind, i) {
            Some((lo, hi, next)) => {
                proof {
                    lemma_element_match(s, kind, i);
                }
                seq![s.subrange(lo, hi)] + captures_from(s, kind, next)
            },
            None => captures_from(s, kind, i + 1),
        }
    }
}

/// What the matches of `kind` capture, over the whole document.
pub open spec fn captures(s: Seq<char>, kind: ElementKind) -> Seq<Seq<char>> {
    captures_from(s, kind, 0)
}

/// The attribute values that are checked, each with its rule.
#[derive(Clone, Copy, PartialEq, Eq, Structural)]
pub enum AttrRule {
    Rate,
    Pitch,
    Volume,
    Level,
    Time,
    Strength,
}

/// Whether `rule` accepts the value `v`.
pub open spec fn accepts(rule: AttrRule, v: Seq<char>) -> bool {
    match rule {
        AttrRule::Rate => v == "x-slow"@ || v == "slow"@ || v == "medium"@ || v == "fast"@ || v
            == "x-fast"@ || ends_with_seq(v, "%"@) || ends_with_seq(v, "Hz"@),
        AttrRule::Pitch => v == "x-low"@ || v == "low"@ || v == "medium"@ || v == "high"@ || v
            == "x-high"@ || ends_with_seq(v, "Hz"@) || ends_with_seq(v, "st"@),
        AttrRule::Volume => v == "silent"@ || v == "x-soft"@ || v == "soft"@ || v == "medium"@
            || v == "loud"@ || v == "x-loud"@ || ends_with_seq(v, "dB"@),
        AttrRule::Level => v == "strong"@ || v == "moderate"@ || v == "reduced"@,
        AttrRule::Time => ends_with_seq(v, "s"@) || ends_with_seq(v, "ms"@),
        AttrRule::Strength => v == "none"@ || v == "x-weak"@ || v == "weak"@ || v == "medium"@
            || v == "strong"@ || v == "x-strong"@,
    }
}

/// The text in front of a rejected value.
pub open spec fn message_prefix(rule: AttrRule) -> Seq<char> {
    match rule {
        AttrRule::Rate => "Invalid prosody rate: "@,
        AttrRule::Pitch => "Invalid prosody pitch: "@,
        AttrRule::Volume => "Invalid prosody volume: "@,
        AttrRule::Level => "Invalid emphasis level: "@,
        AttrRule::Time => "Invalid break time format: "@,
        AttrRule::Strength => "Invalid break strength: "@,
    }
}

/// The report on one value: nothing when `rule` accepts it, else one message
/// quoting it.
pub open spec fn flag(rule: AttrRule, v: Seq<char>) -> Seq<Seq<char>> {
    if accepts(rule, v) {
        Seq::empty()
    } else {
        seq![message_prefix(rule) + v]
    }
}

/// Bounds of the value of the first match of `KEY([^"]+)"` at or after `i`,
/// where `key` ends with the opening quote.
pub open spec fn quoted_value_from(s: Seq<char>, key: Seq<char>, i: int) -> Option<(int, int)>
    decreases s.len() - i,
{
    if i < 0 || i >= s.len() {
        None
    } else if occurs_at(s, key, i) && i + key.len() < find_char_from(s, '"', i + key.len())
        < s.len() {
        Some((i + key.len(), find_char_from(s, '"', i + key.len())))
    } else {
        quoted_value_from(s, key, i + 1)
    }
}

/// The value of the first `name="..."` with a non-empty value in `attrs`.
pub open spec fn quoted_value(attrs: Seq<char>, name: Seq<char>) -> Option<Seq<char>> {
    match quoted_value_from(attrs, name + "=\""@, 0) {
        Some((lo, hi)) => Some(attrs.subrange(lo, hi)),
        None => None,
    }
}

/// The report on the attribute `name` of an attribute block, if it is there.
pub open spec fn flag_attr(rule: AttrRule, attrs: Seq<char>, name: Seq<char>) -> Seq<Seq<char>> {
    match quoted_value(attrs, name) {
        Some(v) => flag(rule, v),
        None => Seq::empty(),
    }
}

/// The report on a prosody element's attribute block.
pub open spec fn prosody_report(attrs: Seq<char>) -> Seq<Seq<char>> {
    flag_attr(AttrRule::Rate, attrs, "rate"@) + flag_attr(AttrRule::Pitch, attrs, "pitch"@)
        + flag_attr(AttrRule::Volume, attrs, "volume"@)
}

/// The report on a break element's attribute block.
pub open spec fn break_report(attrs: Seq<char>) -> Seq<Seq<char>> {
    flag_attr(AttrRule::Time, attrs, "time"@) + flag_attr(AttrRule::Strength, attrs, "strength"@)
}

/// The report on what a match of `kind` captured.
pub open spec fn capture_report(kind: ElementKind, c: Seq<char>) -> Seq<Seq<char>> {
    match kind {
        ElementKind::Prosody => prosody_report(c),
        ElementKind::Emphasis => flag(AttrRule::Level, c),
        ElementKind::Break => break_report(c),
    }
}

/// The report on every element of `kind`, in document order.
pub open spec fn element_report(s: Seq<char>, kind: ElementKind) -> Seq<Seq<char>> {
    captures(s, kind).map_values(|c: Seq<char>| capture_report(kind, c)).flatten()
}

/// The namespace marker that the root element must hold.
pub open spec fn namespace_marker() -> Seq<char> {
    "xmlns=\"http://www.w3.org/2001/10/synthesis\""@
}

/// The version marker that the root element must hold.
pub open spec fn version_marker() -> Seq<char> {
    "version=\"1.0\""@
}

/// The message for a document that does not open with the root element.
pub open spec fn root_message() -> Seq<char> {
    "SSML must start with <speak> element"@
}

/// The message for a missing version marker.
pub open spec fn version_message() -> Seq<char> {
    "Missing version=\"1.0\" attribute in <speak> element"@
}

/// The message for a missing namespace marker.
pub open spec fn namespace_message() -> Seq<char> {
    "Missing xmlns attribute in <speak> element"@
}

/// The report on the root element: where the document opens, and the two markers.
pub open spec fn root_report(s: Seq<char>) -> Seq<Seq<char>> {
    (if occurs_at(s, "<speak"@, white_run_end(s, 0)) {
        Seq::empty()
    } else {
        seq![root_message()]
    }) + (if contains_seq(s, version_marker()) {
        Seq::empty()
    } else {
        seq![version_message()]
    }) + (if contains_seq(s, namespace_marker()) {
        Seq::empty()
    } else {
        seq![namespace_message()]
    })
}

/// Every violation found in a document, in the order the checks run.
pub open spec fn validation_report(s: Seq<char>) -> Seq<Seq<char>> {
    root_report(s) + element_report(s, ElementKind::Prosody) + element_report(
        s,
        ElementKind::Emphasis,
    ) + element_report(s, ElementKind::Break)
}

/// The message that strict validation fails with.
pub open spec fn failure_message(report: Seq<Seq<char>>) -> Seq<char> {
    "SSML validation failed: "@ + join_with(report, "; "@)
}

/// Checks speech markup documents.
pub struct SSMLValidator;

/// Unfolds one step of a flattened map.
pub proof fn lemma_flatten_map_cons(c: Seq<char>, rest: Seq<Seq<char>>, f: spec_fn(Seq<char>) -> Seq<Seq<char>>)
    ensures
        (seq![c] + rest).map_values(f).flatten() == f(c) + rest.map_values(f).flatten(),
{
    let m = (seq![c] + rest).map_values(f);
    assert(m.first() == f(c));
    assert(m.drop_first() =~= rest.map_values(f));
}

/// Computes `element_match(cs@, kind, i)`.
fn element_match_exec(cs: &Vec<char>, kind: ElementKind, i: usize) -> (r: Option<(usize, usize, usize)>)
    requires
        i < cs.len(),
    ensures
        match r {
            Some((lo, hi, next)) => element_match(cs@, kind, i as int) == Some(
                (lo as int, hi as int, next as int),
            ),
            None => element_match(cs@, kind, i as int) is None,
        },
{
    match kind {
        ElementKind::Emphasis => {
            let tag = chars_of("<emphasis");
            if !occurs_at_exec(cs, &tag, i) {
                return None;
            }
            let a = i + tag.len();
            if a >= cs.len() || !white_space(cs[a]) {
                return None;
            }
            let w = white_run_end_exec(cs, a);
            proof {
                lemma_white_run_end(cs@, a as int);
            }
            let key = chars_of("level=\"");
            if !occurs_at_exec(cs, &key, w) {
                return None;
            }
            let v = w + key.len();
            let q = find_char(cs, '"', v);
            if v < q && q < cs.len() {
                Some((v, q, q + 1))
            } else {
                None
            }
        },
        _ => {
            let slash = kind == ElementKind::Break;
            let tag = if slash {
                chars_of("<break")
            } else {
                chars_of("<prosody")
            };
            if !occurs_at_exec(cs, &tag, i) {
                return None;
            }
            let a = i + tag.len();
            if a >= cs.len() || !white_space(cs[a]) {
                return None;
            }
            let m = find_char(cs, '>', a);
            proof {
                lemma_find_char_from(cs@, '>', a as int);
            }
            if m >= cs.len() {
                return None;
            }
            let e = if slash {
                m - 1
            } else {
                m
            };
            if slash && cs[e] != '/' {
                return None;
            }
            let w = white_run_end_exec(cs, a);
            proof {
                lemma_white_run_end(cs@, a as int);
            }
            if w < e {
                Some((w, e, m + 1))
            } else if e >= a + 2 {
                Some((e - 1, e, m + 1))
            } else {
                None
            }
        },
    }
}

/// Decides `accepts(rule, v@)`.
fn rule_accepts(rule: AttrRule, v: &Vec<char>) -> (r: bool)
    ensures
        r == accepts(rule, v@),
{
    match rule {
        AttrRule::Rate => is(v, "x-slow") || is(v, "slow") || is(v, "medium") || is(v, "fast")
            || is(v, "x-fast") || ends(v, "%") || ends(v, "Hz"),
        AttrRule::Pitch => is(v, "x-low") || is(v, "low") || is(v, "medium") || is(v, "high")
            || is(v, "x-high") || ends(v, "Hz") || ends(v, "st"),
        AttrRule::Volume => is(v, "silent") || is(v, "x-soft") || is(v, "soft") || is(
            v,
            "medium",
        ) || is(v, "loud") || is(v, "x-loud") || ends(v, "dB"),
        AttrRule::Level => is(v, "strong") || is(v, "moderate") || is(v, "reduced"),
        AttrRule::Time => ends(v, "s") || ends(v, "ms"),
        AttrRule::Strength => is(v, "none") || is(v, "x-weak") || is(v, "weak") || is(
            v,
            "medium",
        ) || is(v, "strong") || is(v, "x-strong"),
    }
}

fn is(v: &Vec<char>, lit: &str) -> (r: bool)
    ensures
        r == (v@ == lit@),
{
    same_chars(v, &chars_of(lit))
}

fn ends(v: &Vec<char>, lit: &str) -> (r: bool)
    ensures
        r == ends_with_seq(v@, lit@),
{
    ends_with_exec(v, &chars_of(lit))
}

/// The message for a rejected value.
fn rule_message(rule: AttrRule, value: &str) -> (r: String)
    ensures
        r@ == message_prefix(rule) + value@,
{
    let mut r = match rule {
        AttrRule::Rate => String::from_str("Invalid prosody rate: "),
        AttrRule::Pitch => String::from_str("Invalid prosody pitch: "),
        AttrRule::Volume => String::from_str("Invalid prosody volume: "),
        AttrRule::Level => String::from_str("Invalid emphasis level: "),
        AttrRule::Time => String::from_str("Invalid break time format: "),
        AttrRule::Strength => String::from_str("Invalid break strength: "),
    };
    r.append(value);
    r
}

fn push_view(errors: &mut Vec<String>, e: String)
    ensures
        views(final(errors)@) == views(old(errors)@).push(e@),
{
    errors.push(e);
    assert(views(errors@) =~= views(old(errors)@).push(e@));
}

/// Adds the report on the value `ssml[lo..hi]` under `rule`.
fn flag_value(rule: AttrRule, ssml: &str, cs: &Vec<char>, lo: usize, hi: usize, errors: &mut Vec<String>)
    requires
        cs@ == ssml@,
        lo <= hi <= cs.len(),
    ensures
        views(final(errors)@) == views(old(errors)@) + flag(rule, ssml@.subrange(lo as int, hi as int)),
{
    let v = sub_chars(cs, lo, hi);
    if rule_accepts(rule, &v) {
        assert(views(errors@) =~= views(old(errors)@) + flag(rule, ssml@.subrange(lo as int, hi as int)));
    } else {
        let m = rule_message(rule, ssml.substring_char(lo, hi));
        push_view(errors, m);
        assert(views(errors@) =~= views(old(errors)@) + flag(rule, ssml@.subrange(lo as int, hi as int)));
    }
}

/// Computes `quoted_value_from(s@, key@, 0)`.
fn quoted_value_exec(s: &Vec<char>, key: &Vec<char>) -> (r: Option<(usize, usize)>)
    ensures
        match r {
            Some((lo, hi)) => quoted_value_from(s@, key@, 0) == Some((lo as int, hi as int)),
            None => quoted_value_from(s@, key@, 0) is None,
        },
{
    let mut i: usize = 0;
    while i < s.len()
        invariant
            i <= s.len(),
            quoted_value_from(s@, key@, 0) == quoted_value_from(s@, key@, i as int),
        decreases s.len() - i,
    {
        if occurs_at_exec(s, key, i) {
            let v = i + key.len();
            let q = find_char(s, '"', v);
            if v < q && q < s.len() {
                return Some((v, q));
            }
        }
        i = i + 1;
    }
    None
}

/// Adds the report on the attribute `name` of the block `ssml[lo..hi]`.
fn flag_attr_exec(
    rule: AttrRule,
    name: &str,
    ssml: &str,
    cs: &Vec<char>,
    lo: usize,
    hi: usize,
    errors: &mut Vec<String>,
)
    requires
        cs@ == ssml@,
        lo <= hi <= cs.len(),
    ensures
        views(final(errors)@) == views(old(errors)@) + flag_attr(
            rule,
            ssml@.subrange(lo as int, hi as int),
            name@,
        ),
{
    let ghost attrs_view = ssml@.subrange(lo as int, hi as int);
    let attrs = sub_chars(cs, lo, hi);
    let mut key = chars_of(name);
    let mut tail = chars_of("=\"");
    key.append(&mut tail);
    match quoted_value_exec(&attrs, &key) {
        Some((vlo, vhi)) => {
            proof {
                lemma_quoted_value_from(attrs_view, key@, 0);
            }
            assert(attrs_view.subrange(vlo as int, vhi as int) =~= ssml@.subrange(
                lo + vlo,
                lo + vhi,
            ));
            flag_value(rule, ssml, cs, lo + vlo, lo + vhi, errors);
        },
        None => {
            assert(views(errors@) =~= views(old(errors)@) + flag_attr(rule, attrs_view, name@));
        },
    }
}

/// A found value lies inside the text.
pub proof fn lemma_quoted_value_from(s: Seq<char>, key: Seq<char>, i: int)
    requires
        0 <= i,
    ensures
        quoted_value_from(s, key, i) matches Some((lo, hi)) ==> 0 <= lo <= hi <= s.len(),
    decreases s.len() - i,
{
    if i < s.len() {
        lemma_quoted_value_from(s, key, i + 1);
    }
}

/// Adds the report on what a match of `kind` captured, `ssml[lo..hi]`.
fn report_capture(kind: ElementKind, ssml: &str, cs: &Vec<char>, lo: usize, hi: usize, errors: &mut Vec<String>)
    requires
        cs@ == ssml@,
        lo <= hi <= cs.len(),
    ensures
        views(final(errors)@) == views(old(errors)@) + capture_report(
            kind,
            ssml@.subrange(lo as int, hi as int),
        ),
{
    let ghost c = ssml@.subrange(lo as int, hi as int);
    let ghost e0 = views(errors@);
    match kind {
        ElementKind::Prosody => {
            flag_attr_exec(AttrRule::Rate, "rate", ssml, cs, lo, hi, errors);
            flag_attr_exec(AttrRule::Pitch, "pitch", ssml, cs, lo, hi, errors);
            flag_attr_exec(AttrRule::Volume, "volume", ssml, cs, lo, hi, errors);
            assert(views(errors@) =~= e0 + prosody_report(c));
        },
        ElementKind::Emphasis => {
            flag_value(AttrRule::Level, ssml, cs, lo, hi, errors);
        },
        ElementKind::Break => {
            flag_attr_exec(AttrRule::Time, "time", ssml, cs, lo, hi, errors);
            flag_attr_exec(AttrRule::Strength, "strength", ssml, cs, lo, hi, errors);
            assert(views(errors@) =~= e0 + break_report(c));
        },
    }
}

/// Adds the report on every element of `kind`.
fn scan_elements(kind: ElementKind, ssml: &str, cs: &Vec<char>, errors: &mut Vec<String>)
    requires
        cs@ == ssml@,
    ensures
        views(final(errors)@) == views(old(errors)@) + element_report(ssml@, kind),
{
    let ghost s = ssml@;
    let ghost f = |c: Seq<char>| capture_report(kind, c);
    let mut i: usize = 0;
    while i < cs.len()
        invariant
            cs@ == s,
            s == ssml@,
            f == (|c: Seq<char>| capture_report(kind, c)),
            i <= cs.len(),
            views(errors@) + captures_from(s, kind, i as int).map_values(f).flatten() == views(
                old(errors)@,
            ) + element_report(s, kind),
        decreases cs.len() - i,
    {
        match element_match_exec(cs, kind, i) {
            Some((lo, hi, next)) => {
                proof {
                    lemma_element_match(s, kind, i as int);
                    lemma_flatten_map_cons(
                        s.subrange(lo as int, hi as int),
                        captures_from(s, kind, next as int),
                        f,
                    );
                }
                assert(captures_from(s, kind, i as int) == seq![s.subrange(lo as int, hi as int)]
                    + captures_from(s, kind, next as int));
                assert(f(s.subrange(lo as int, hi as int)) == capture_report(
                    kind,
                    s.subrange(lo as int, hi as int),
                ));
                let ghost before = views(errors@);
                report_capture(kind, ssml, cs, lo, hi, errors);
                assert(views(errors@) + captures_from(s, kind, next as int).map_values(f).flatten()
                    =~= before + captures_from(s, kind, i as int).map_values(f).flatten());
                i = next;
            },
            None => {
                i = i + 1;
            },
        }
    }
    assert(captures_from(s, kind, i as int).map_values(f) =~= Seq::<Seq<Seq<char>>>::empty());
    assert(views(errors@) =~= views(old(errors)@) + element_report(s, kind));
}

impl SSMLValidator {
    /// Every violation found in `ssml`, in the order the checks run; empty when
    /// none is found.
    pub fn validate(ssml: &str) -> (r: Vec<String>)
        ensures
            views(r@) == validation_report(ssml@),
    {
        let cs = chars_of(ssml);
        let mut errors: Vec<String> = Vec::new();
        let ghost s = ssml@;
        let w = white_run_end_exec(&cs, 0);
        if !occurs_at_exec(&cs, &chars_of("<speak"), w) {
            push_view(&mut errors, String::from_str("SSML must start with <speak> element"));
        }
        if !contains_exec(&cs, &chars_of("version=\"1.0\"")) {
            push_view(
                &mut errors,
                String::from_str("Missing version=\"1.0\" attribute in <speak> element"),
            );
        }
        if !contains_exec(&cs, &chars_of("xmlns=\"http://www.w3.org/2001/10/synthesis\"")) {
            push_view(&mut errors, String::from_str("Missing xmlns attribute in <speak> element"));
        }
        assert(views(errors@) =~= root_report(s));
        Self::validate_prosody_elements(ssml, &cs, &mut errors);
        Self::validate_emphasis_elements(ssml, &cs, &mut errors);
        Self::validate_break_elements(ssml, &cs, &mut errors);
        assert(views(errors@) =~= validation_report(s));
        errors
    }

    fn validate_prosody_elements(ssml: &str, cs: &Vec<char>, errors: &mut Vec<String>)
        requires
            cs@ == ssml@,
        ensures
            views(final(errors)@) == views(old(errors)@) + element_report(ssml@, ElementKind::Prosody),
    {
        scan_elements(ElementKind::Prosody, ssml, cs, errors);
    }

    fn validate_emphasis_elements(ssml: &str, cs: &Vec<char>, errors: &mut Vec<String>)
        requires
            cs@ == ssml@,
        ensures
            views(final(errors)@) == views(old(errors)@) + element_report(ssml@, ElementKind::Emphasis),
    {
        scan_elements(ElementKind::Emphasis, ssml, cs, errors);
    }

    fn validate_break_elements(ssml: &str, cs: &Vec<char>, errors: &mut Vec<String>)
        requires
            cs@ == ssml@,
        ensures
            views(final(errors)@) == views(old(errors)@) + element_report(ssml@, ElementKind::Break),
    {
        scan_elements(ElementKind::Break, ssml, cs, errors);
    }
}

/// Validates `ssml`; when `raise_on_error` is set and a violation is found,
/// fails with one message that joins them all.
pub fn validate_ssml(ssml: &str, raise_on_error: bool) -> (r: Result<Vec<String>, String>)
    ensures
        match r {
            Err(m) => raise_on_error && validation_report(ssml@).len() > 0 && m@ == failure_message(
                validation_report(ssml@),
            ),
            Ok(v) => !(raise_on_error && validation_report(ssml@).len() > 0) && views(v@)
                == validation_report(ssml@),
        },
{
    let errors = SSMLValidator::validate(ssml);
    if errors.len() > 0 && raise_on_error {
        let mut m = String::from_str("SSML validation failed: ");
        let joined = join_strings(&errors, "; ");
        m.append(joined.as_str());
        return Err(m);
    }
    Ok(errors)
}

/// A document without the namespace marker is reported, with a message about
/// the namespace.
pub proof fn lemma_missing_namespace_reported(s: Seq<char>)
    requires
        !contains_seq(s, namespace_marker()),
    ensures
        validation_report(s).contains(namespace_message()),
{
    let r = root_report(s);
    assert(r[r.len() - 1] == namespace_message());
    let v = validation_report(s);
    assert(v[r.len() - 1] == namespace_message());
}

/// Every `<` in `s` is followed, inside `s`, by a character that starts none of
/// the checked elements' names.
pub open spec fn tag_clean(s: Seq<char>) -> bool {
    forall|j: int|
        0 <= j < s.len() && #[trigger] s[j] == '<' ==> j + 1 < s.len() && s[j + 1] != 'p' && s[j
            + 1] != 'e' && s[j + 1] != 'b'
}

/// `tag_clean` from position `i` on, one position at a time.
pub open spec fn tag_clean_from(s: Seq<char>, i: int) -> bool
    decreases s.len() - i,
{
    if i < 0 || i >= s.len() {
        true
    } else {
        (s[i] == '<' ==> i + 1 < s.len() && s[i + 1] != 'p' && s[i + 1] != 'e' && s[i + 1] != 'b')
            && tag_clean_from(s, i + 1)
    }
}

proof fn lemma_tag_clean_from(s: Seq<char>, i: int)
    requires
        0 <= i,
        tag_clean_from(s, i),
    ensures
        forall|j: int|
            i <= j < s.len() && #[trigger] s[j] == '<' ==> j + 1 < s.len() && s[j + 1] != 'p'
                && s[j + 1] != 'e' && s[j + 1] != 'b',
    decreases s.len() - i,
{
    if i < s.len() {
        lemma_tag_clean_from(s, i + 1);
    }
}

proof fn lemma_tag_clean_concat(x: Seq<char>, y: Seq<char>)
    requires
        tag_clean(x),
        tag_clean(y),
    ensures
        tag_clean(x + y),
{
    assert forall|j: int|
        0 <= j < (x + y).len() && #[trigger] (x + y)[j] == '<' implies j + 1 < (x + y).len() && (x
            + y)[j + 1] != 'p' && (x + y)[j + 1] != 'e' && (x + y)[j + 1] != 'b' by {
        if j < x.len() {
            assert(x[j] == '<');
        } else {
            assert(y[j - x.len()] == '<');
        }
    }
}

proof fn lemma_no_lt_tag_clean(s: Seq<char>)
    requires
        !s.contains('<'),
    ensures
        tag_clean(s),
{
    assert forall|j: int| 0 <= j < s.len() && #[trigger] s[j] == '<' implies false by {
        assert(s.contains(s[j]));
    }
}

/// The fixed text of a document holds no start of a checked element.
proof fn lemma_frame_tag_clean()
    ensures
        tag_clean(speak_open()),
        tag_clean(voice_open()),
        tag_clean(content_open()),
        tag_clean(document_close()),
{
    reveal_strlit("<speak");
    reveal_strlit(" ");
    reveal_strlit("version=\"1.0\"");
    reveal_strlit("xmlns=\"http://www.w3.org/2001/10/synthesis\"");
    reveal_strlit(" xml:lang=\"");
    reveal_strlit("\">\n    ");
    reveal_strlit("<");
    reveal_strlit("voice");
    reveal_strlit(" name=\"");
    reveal_strlit("\">\n        ");
    reveal_strlit("\n    ");
    reveal_strlit("</voice>");
    reveal_strlit("\n");
    reveal_strlit("</speak>");
    reveal_with_fuel(tag_clean_from, 50);
    assert(tag_clean_from("<speak"@, 0));
    assert(tag_clean_from(" "@, 0));
    assert(tag_clean_from(version_marker(), 0));
    assert(tag_clean_from(namespace_marker(), 0));
    assert(tag_clean_from(" xml:lang=\""@, 0));
    assert(tag_clean_from("\">\n    "@, 0));
    assert(tag_clean_from("<"@ + "voice"@, 0));
    assert(tag_clean_from(" name=\""@, 0));
    assert(tag_clean_from("\">\n        "@, 0));
    assert(tag_clean_from("\n    "@, 0));
    assert(tag_clean_from("</voice>"@, 0));
    assert(tag_clean_from("\n"@, 0));
    assert(tag_clean_from("</speak>"@, 0));
    lemma_tag_clean_from("<speak"@, 0);
    lemma_tag_clean_from(" "@, 0);
    lemma_tag_clean_from(version_marker(), 0);
    lemma_tag_clean_from(namespace_marker(), 0);
    lemma_tag_clean_from(" xml:lang=\""@, 0);
    lemma_tag_clean_from("\">\n    "@, 0);
    lemma_tag_clean_from("<"@ + "voice"@, 0);
    lemma_tag_clean_from(" name=\""@, 0);
    lemma_tag_clean_from("\">\n        "@, 0);
    lemma_tag_clean_from("\n    "@, 0);
    lemma_tag_clean_from("</voice>"@, 0);
    lemma_tag_clean_from("\n"@, 0);
    lemma_tag_clean_from("</speak>"@, 0);
    lemma_tag_clean_concat("<speak"@, " "@);
    lemma_tag_clean_concat("<speak"@ + " "@, version_marker());
    lemma_tag_clean_concat("<speak"@ + " "@ + version_marker(), " "@);
    lemma_tag_clean_concat("<speak"@ + " "@ + version_marker() + " "@, namespace_marker());
    lemma_tag_clean_concat(
        "<speak"@ + " "@ + version_marker() + " "@ + namespace_marker(),
        " xml:lang=\""@,
    );
    lemma_tag_clean_concat("\">\n    "@, "<"@ + "voice"@);
    lemma_tag_clean_concat("\">\n    "@ + ("<"@ + "voice"@), " name=\""@);
    lemma_tag_clean_concat("\n    "@, "</voice>"@);
    lemma_tag_clean_concat("\n    "@ + "</voice>"@, "\n"@);
    lemma_tag_clean_concat("\n    "@ + "</voice>"@ + "\n"@, "</speak>"@);
}

proof fn lemma_tag_clean_no_match(s: Seq<char>, kind: ElementKind, i: int)
    requires
        tag_clean(s),
        0 <= i < s.len(),
    ensures
        element_match(s, kind, i) is None,
{
    reveal_strlit("<prosody");
    reveal_strlit("<emphasis");
    reveal_strlit("<break");
    let tag = match kind {
        ElementKind::Prosody => "<prosody"@,
        ElementKind::Emphasis => "<emphasis"@,
        ElementKind::Break => "<break"@,
    };
    if occurs_at(s, tag, i) {
        assert(s.subrange(i, i + tag.len())[0] == s[i]);
        assert(s.subrange(i, i + tag.len())[1] == s[i + 1]);
    }
}

proof fn lemma_tag_clean_no_captures(s: Seq<char>, kind: ElementKind, i: int)
    requires
        tag_clean(s),
        0 <= i,
    ensures
        captures_from(s, kind, i) == Seq::<Seq<char>>::empty(),
    decreases s.len() - i,
{
    if i < s.len() {
        lemma_tag_clean_no_match(s, kind, i);
        lemma_tag_clean_no_captures(s, kind, i + 1);
    }
}

/// Every built document passes the checks on the root element: it opens with
/// the root element and holds the version and namespace markers.
pub proof fn lemma_built_root_valid(lang: Seq<char>, voice: Seq<char>, content: Seq<char>)
    ensures
        root_report(document(lang, voice, content)).len() == 0,
{
    reveal_strlit("<speak");
    reveal_strlit(" ");
    let d = document(lang, voice, content);
    let v: int = ("<speak"@.len() + " "@.len()) as int;
    let n: int = v + version_marker().len() + " "@.len();
    assert(d[0] == '<');
    assert(d.subrange(0, "<speak"@.len() as int) =~= "<speak"@);
    assert(d.subrange(v, v + version_marker().len()) =~= version_marker());
    assert(occurs_at(d, version_marker(), v));
    assert(d.subrange(n, n + namespace_marker().len()) =~= namespace_marker());
    assert(occurs_at(d, namespace_marker(), n));
}

/// A document built from plain text is reported clean: when no `<` in the
/// language tag, the voice or the concatenated fragments starts a prosody,
/// emphasis or break element, no violation is found.
pub proof fn lemma_plain_document_valid(lang: Seq<char>, voice: Seq<char>, content: Seq<char>)
    requires
        tag_clean(lang),
        tag_clean(voice),
        tag_clean(content),
    ensures
        validation_report(document(lang, voice, content)).len() == 0,
{
    let d = document(lang, voice, content);
    lemma_built_root_valid(lang, voice, content);
    lemma_frame_tag_clean();
    lemma_tag_clean_concat(speak_open(), lang);
    lemma_tag_clean_concat(speak_open() + lang, voice_open());
    lemma_tag_clean_concat(speak_open() + lang + voice_open(), voice);
    lemma_tag_clean_concat(speak_open() + lang + voice_open() + voice, content_open());
    lemma_tag_clean_concat(speak_open() + lang + voice_open() + voice + content_open(), content);
    lemma_tag_clean_concat(
        speak_open() + lang + voice_open() + voice + content_open() + content,
        document_close(),
    );
    lemma_tag_clean_no_captures(d, ElementKind::Prosody, 0);
    lemma_tag_clean_no_captures(d, ElementKind::Emphasis, 0);
    lemma_tag_clean_no_captures(d, ElementKind::Break, 0);
    assert(element_report(d, ElementKind::Prosody) =~= Seq::empty());
    assert(element_report(d, ElementKind::Emphasis) =~= Seq::empty());
    assert(element_report(d, ElementKind::Break) =~= Seq::empty());
}

} // verus!
