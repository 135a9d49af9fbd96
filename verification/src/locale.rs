use vstd::prelude::*;
use crate::localizable::same_text;

verus! {

/// Names the result of reading a locale with `unic_langid` and writing it
/// out again: the locale in its standard spelling, or nothing where the
/// text is no locale.
pub uninterp spec fn canonical_locale(text: Seq<char>) -> Option<Seq<char>>;

/// `unic_langid::LanguageIdentifier`'s `from_str`, then its `to_string`:
/// the locale in its standard spelling, or nothing where the text is no
/// locale.
#[verifier::external_body]
fn read_locale(text: &str) -> (r: Option<String>)
    ensures
        r is Some == canonical_locale(text@) is Some,
        r matches Some(s) ==> canonical_locale(text@) == Some(s@),
{
    match text.parse::<unic_langid::LanguageIdentifier>() {
        Ok(id) => Some(id.to_string()),
        Err(_) => None,
    }
}

/// The text shown where a message is missing in the locale that serves.
pub open spec fn untranslated() -> Seq<char> {
    "Not translated :b"@
}

/// The text found for a message, or else the text that says there is
/// none.
pub fn text_or_default(found: Option<String>) -> (s: String)
    ensures
        s@ == (match found {
            Some(text) => text@,
            None => untranslated(),
        }),
{
    match found {
        Some(text) => text,
        None => "Not translated :b".to_string(),
    }
}

/// The texts of a list of strings.
pub open spec fn texts(list: Seq<String>) -> Seq<Seq<char>> {
    Seq::new(list.len(), |i: int| list[i]@)
}

fn position_of(list: &Vec<String>, text: &str) -> (r: Option<usize>)
    ensures
        r is Some <==> texts(list@).contains(text@),
        r matches Some(i) ==> i < list@.len() && list@[i as int]@ == text@,
{
    let mut i: usize = 0;
    while i < list.len()
        invariant
            i <= list.len(),
            forall|j: int| 0 <= j < i ==> list@[j]@ != text@,
        decreases list.len() - i,
    {
        if same_text(list[i].as_str(), text) {
            assert(texts(list@)[i as int] == text@);
            return Some(i);
        }
        i = i + 1;
    }
    assert forall|j: int| 0 <= j < texts(list@).len() implies texts(list@)[j] != text@ by {
        assert(texts(list@)[j] == list@[j]@);
    }
    None
}

/// Whether `locale` is among the locales on offer.
pub fn offers(available: &Vec<String>, locale: &str) -> (r: bool)
    ensures
        r == texts(available@).contains(locale@),
{
    position_of(available, locale).is_some()
}

/// The locales on offer, and the one to fall back on.
pub struct FluentLocalizer {
    fallback_locale: String,
    available: Vec<String>,
}

impl FluentLocalizer {
    /// The locale to fall back on.
    pub closed spec fn fallback(&self) -> Seq<char> {
        self.fallback_locale@
    }

    /// The locales on offer.
    pub closed spec fn available(&self) -> Seq<Seq<char>> {
        texts(self.available@)
    }

    /// The fallback is among the locales on offer.
    pub open spec fn wf(&self) -> bool {
        self.available().contains(self.fallback())
    }

    /// The locale that serves a request: the one asked for
    /// where it is a locale and on offer, else the fallback.
    pub open spec fn chosen(&self, asked: Option<Seq<char>>) -> Seq<char> {
        match asked {
            Some(locale) => if self.available().contains(locale) {
                locale
            } else {
                self.fallback()
            },
            None => self.fallback(),
        }
    }

    /// The localizer for the locales on offer. The fallback has to be among
    /// them; `offers` tells whether it is.
    pub fn new(fallback_locale: String, available: Vec<String>) -> (r: FluentLocalizer)
        requires
            texts(available@).contains(fallback_locale@),
        ensures
            r.wf(),
            r.fallback() == fallback_locale@,
            r.available() == texts(available@),
    {
        FluentLocalizer { fallback_locale, available }
    }

    /// The locale to fall back on.
    pub fn fallback_locale(&self) -> (r: &str)
        ensures
            r@ == self.fallback(),
    {
        self.fallback_locale.as_str()
    }

    /// The locales on offer.
    pub fn get_available_localizations(&self) -> (r: Vec<String>)
        ensures
            texts(r@) == self.available(),
    {
        let r = self.available.clone();
        assert(texts(r@) =~= texts(self.available@)) by {
            assert(r@ =~= self.available@);
        }
        r
    }

    /// The locale that serves a request, given the locale
    /// asked for in its standard spelling, or nothing where what was asked
    /// for is no locale.
    pub fn pick(&self, asked: Option<String>) -> (r: String)
        requires
            self.wf(),
        ensures
            r@ == self.chosen(
                match asked {
                    Some(s) => Some(s@),
                    None => None,
                },
            ),
            self.available().contains(r@),
    {
        match asked {
            Some(locale) => match position_of(&self.available, locale.as_str()) {
                Some(_) => locale,
                None => self.fallback_locale.clone(),
            },
            None => self.fallback_locale.clone(),
        }
    }

    /// The text of message `msg` for a reader in `lang_id`. `lookup` finds
    /// a message's text in a locale's bundle; it is asked once, for the
    /// locale that serves the request, and where it finds nothing the text
    /// that says so is returned.
    pub fn localize<F: Fn(&str, &str) -> Option<String>>(
        &self,
        lang_id: &str,
        msg: &str,
        lookup: F,
    ) -> (r: String)
        requires
            self.wf(),
            forall|locale: &str, asked: &str| lookup.requires((locale, asked)),
        ensures
            exists|locale: &str, found: Option<String>|
                {
                    &&& locale@ == self.chosen(canonical_locale(lang_id@))
                    &&& lookup.ensures((locale, msg), found)
                    &&& r@ == (match found {
                        Some(text) => text@,
                        None => untranslated(),
                    })
                },
    {
        let locale = self.get_bundle(lang_id);
        let found = lookup(locale.as_str(), msg);
        text_or_default(found)
    }

    /// The locale that serves a request for `lang_id`. It is
    /// always one that is on offer.
    pub fn get_bundle(&self, lang_id: &str) -> (r: String)
        requires
            self.wf(),
        ensures
            r@ == self.chosen(canonical_locale(lang_id@)),
            self.available().contains(r@),
    {
        self.pick(read_locale(lang_id))
    }
}

} // verus!
