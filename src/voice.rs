use vstd::prelude::*;

use crate::text::{chars_of, find_char, find_char_from, lemma_find_char_from};

verus! {

/// A voice that the speech service offers.
#[derive(Debug)]
pub struct Voice {
    pub name: String,
    pub display_name: String,
    pub locale: String,
    pub gender: String,
}

impl Clone for Voice {
    fn clone(&self) -> (r: Self)
        ensures
            r == *self,
    {
        Voice {
            name: self.name.clone(),
            display_name: self.display_name.clone(),
            locale: self.locale.clone(),
            gender: self.gender.clone(),
        }
    }
}

/// The language code of a locale: its part before the first `-`.
pub open spec fn language_code_of(locale: Seq<char>) -> Seq<char> {
    locale.subrange(0, find_char_from(locale, '-', 0))
}

/// A voice serves `language` when its locale is `language` or its language
/// code is; case is significant.
pub open spec fn serves_language(v: Voice, language: Seq<char>) -> bool {
    v.locale@ == language || language_code_of(v.locale@) == language
}

impl Voice {
    pub fn new(name: String, display_name: String, locale: String, gender: String) -> (r: Self)
        ensures
            r.name == name,
            r.display_name == display_name,
            r.locale == locale,
            r.gender == gender,
    {
        Voice { name, display_name, locale, gender }
    }

    /// The locale's language code (`en` for `en-US`).
    pub fn language_code(&self) -> (r: &str)
        ensures
            r@ == language_code_of(self.locale@),
    {
        let cs = chars_of(self.locale.as_str());
        let p = find_char(&cs, '-', 0);
        proof {
            lemma_find_char_from(self.locale@, '-', 0);
        }
        self.locale.as_str().substring_char(0, p)
    }

    /// Whether this voice serves `language`.
    pub fn matches_language(&self, language: &str) -> (r: bool)
        ensures
            r == serves_language(*self, language@),
    {
        crate::text::str_eq(self.locale.as_str(), language) || crate::text::str_eq(
            self.language_code(),
            language,
        )
    }
}

} // verus!
