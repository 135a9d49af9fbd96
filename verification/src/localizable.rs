use vstd::prelude::*;

verus! {

/// A text in one locale.
pub struct Localization {
    pub locale: String,
    pub text: String,
}

/// Something that bears a description: one for the default locale, and any
/// number for named locales.
pub trait Localizable: Sized {
    /// The description in the default locale.
    spec fn default_text(&self) -> Seq<char>;

    /// The descriptions given for named locales, as (locale, text), in the
    /// order in which they were given.
    spec fn localized(&self) -> Seq<(Seq<char>, Seq<char>)>;

    /// Sets the description in the default locale and hands `self` back.
    fn localize_default(&mut self, localization: &str) -> (r: &mut Self)
        ensures
            r.default_text() == localization@,
            r.localized() == old(self).localized(),
            *final(self) == *final(r),
    ;

    /// Adds the description for `locale` and hands `self` back.
    fn localize(&mut self, locale: &str, localization: &str) -> (r: &mut Self)
        ensures
            r.default_text() == old(self).default_text(),
            r.localized() == old(self).localized().push((locale@, localization@)),
            *final(self) == *final(r),
    ;
}

/// The (locale, text) pairs of `texts` whose locale is not `default_locale`.
pub open spec fn foreign_texts(texts: Seq<Localization>, default_locale: Seq<char>) -> Seq<
    (Seq<char>, Seq<char>),
>
    decreases texts.len(),
{
    if texts.len() == 0 {
        Seq::empty()
    } else {
        let rest = foreign_texts(texts.drop_last(), default_locale);
        if texts.last().locale@ == default_locale {
            rest
        } else {
            rest.push((texts.last().locale@, texts.last().text@))
        }
    }
}

/// Whether two strings read the same.
pub fn same_text(a: &str, b: &str) -> (r: bool)
    ensures
        r == (a@ == b@),
{
    let n = a.unicode_len();
    if n != b.unicode_len() {
        return false;
    }
    let mut i: usize = 0;
    while i < n
        invariant
            i <= n,
            n == a@.len(),
            n == b@.len(),
            forall|j: int| 0 <= j < i ==> a@[j] == b@[j],
        decreases n - i,
    {
        if a.get_char(i) != b.get_char(i) {
            return false;
        }
        i = i + 1;
    }
    assert(a@ =~= b@);
    true
}

/// Describes `target` in every locale on offer: `default_text` for the
/// default locale, and each text of `texts` under its own locale, but for a
/// text in the default locale, which is passed over.
pub fn describe<T: Localizable>(
    target: &mut T,
    default_locale: &str,
    default_text: &str,
    texts: &Vec<Localization>,
)
    ensures
        final(target).default_text() == default_text@,
        final(target).localized() == old(target).localized() + foreign_texts(
            texts@,
            default_locale@,
        ),
{
    target.localize_default(default_text);
    let mut i: usize = 0;
    proof {
        assert(texts@.take(0) =~= Seq::<Localization>::empty());
        assert(old(target).localized() + Seq::<(Seq<char>, Seq<char>)>::empty() =~= old(target).localized());
    }
    while i < texts.len()
        invariant
            i <= texts.len(),
            target.default_text() == default_text@,
            target.localized() == old(target).localized() + foreign_texts(
                texts@.take(i as int),
                default_locale@,
            ),
        decreases texts.len() - i,
    {
        let entry = &texts[i];
        proof {
            assert(texts@.take(i as int + 1).drop_last() =~= texts@.take(i as int));
            assert(texts@.take(i as int + 1).last() == texts@[i as int]);
        }
        if !same_text(entry.locale.as_str(), default_locale) {
            target.localize(entry.locale.as_str(), entry.text.as_str());
            proof {
                let base = old(target).localized();
                let sofar = foreign_texts(texts@.take(i as int), default_locale@);
                assert((base + sofar).push((entry.locale@, entry.text@)) =~= base + sofar.push(
                    (entry.locale@, entry.text@),
                ));
            }
        }
        i = i + 1;
    }
    proof {
        assert(texts@.take(i as int) =~= texts@);
    }
}

} // verus!
