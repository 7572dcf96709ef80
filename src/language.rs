//! The languages that recordings can be summarised in.
use vstd::prelude::*;

verus! {

#[derive(Debug, Clone, Copy, PartialEq, Eq, Structural)]
pub enum Language {
    EnUs,
    IdId,
    JaJp,
}

/// Every language, in the order they are offered.
pub open spec fn all_languages() -> Seq<Language> {
    seq![Language::EnUs, Language::IdId, Language::JaJp]
}

/// The name a language is shown under.
pub open spec fn display_name_of(lang: Language) -> &'static str {
    match lang {
        Language::EnUs => "English (US)",
        Language::IdId => "Bahasa Indonesia",
        Language::JaJp => "日本語",
    }
}

impl Language {
    /// The name the language is shown under, in that language.
    pub fn to_display_name(&self) -> (r: &'static str)
        ensures
            r == display_name_of(*self),
    {
        match self {
            Language::EnUs => "English (US)",
            Language::IdId => "Bahasa Indonesia",
            Language::JaJp => "日本語",
        }
    }

    /// Every language, in the order they are offered.
    pub fn all() -> (r: Vec<Language>)
        ensures
            r@ == all_languages(),
    {
        let r = vec![Language::EnUs, Language::IdId, Language::JaJp];
        assert(r@ =~= all_languages());
        r
    }
}

/// A language together with the name it is shown under.
#[derive(Debug, Clone, Copy)]
pub struct LanguageInfo {
    pub code: Language,
    pub display_name: &'static str,
}

impl From<Language> for LanguageInfo {
    fn from(lang: Language) -> (r: LanguageInfo) {
        LanguageInfo { code: lang, display_name: lang.to_display_name() }
    }
}

impl vstd::std_specs::convert::FromSpecImpl<Language> for LanguageInfo {
    open spec fn obeys_from_spec() -> bool {
        true
    }

    open spec fn from_spec(lang: Language) -> LanguageInfo {
        LanguageInfo { code: lang, display_name: display_name_of(lang) }
    }
}

/// Every language with its display name, in the order they are offered.
pub fn get_languages() -> (r: Vec<LanguageInfo>)
    ensures
        r@.len() == all_languages().len(),
        forall|i: int|
            0 <= i < r@.len() ==> #[trigger] r@[i] == (LanguageInfo {
                code: all_languages()[i],
                display_name: display_name_of(all_languages()[i]),
            }),
{
    let langs = Language::all();
    let mut r: Vec<LanguageInfo> = Vec::new();
    let mut i: usize = 0;
    while i < langs.len()
        invariant
            i <= langs@.len(),
            langs@ == all_languages(),
            r@.len() == i,
            forall|j: int|
                0 <= j < i ==> #[trigger] r@[j] == (LanguageInfo {
                    code: all_languages()[j],
                    display_name: display_name_of(all_languages()[j]),
                }),
        decreases langs@.len() - i,
    {
        r.push(LanguageInfo::from(langs[i]));
        i = i + 1;
    }
    r
}

} // verus!
