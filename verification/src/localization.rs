//! Translated interface strings, looked up by key.
use vstd::hash_map::StringHashMap;
use vstd::prelude::*;

verus! {

/// Translations keyed by their interface key.
pub struct LocalizationData {
    pub strings: StringHashMap<String>,
}

impl LocalizationData {
    /// No translations.
    pub fn empty() -> (r: LocalizationData)
        ensures
            r.strings@ == Map::<Seq<char>, String>::empty(),
    {
        LocalizationData { strings: StringHashMap::new() }
    }

    /// Records the translation of `key`, replacing any earlier one.
    pub fn insert(&mut self, key: String, value: String)
        ensures
            final(self).strings@ == old(self).strings@.insert(key@, value),
    {
        self.strings.insert(key, value);
    }
}

impl Default for LocalizationData {
    fn default() -> (r: LocalizationData)
        ensures
            r.strings@ == Map::<Seq<char>, String>::empty(),
    {
        LocalizationData::empty()
    }
}

pub struct Localization {
    data: LocalizationData,
}

/// The text shown for `key`: its translation, or the key itself when there is none.
pub open spec fn lookup_text(translations: Map<Seq<char>, String>, key: Seq<char>) -> Seq<char> {
    if translations.contains_key(key) {
        translations[key]@
    } else {
        key
    }
}

impl Localization {
    /// The translations this localization knows.
    pub closed spec fn translations(&self) -> Map<Seq<char>, String> {
        self.data.strings@
    }

    /// A localization with no translations: every key shows as itself.
    pub fn new() -> (r: Localization)
        ensures
            r.translations() == Map::<Seq<char>, String>::empty(),
    {
        Localization { data: LocalizationData::empty() }
    }

    /// A localization over the given translations.
    pub fn from_data(data: LocalizationData) -> (r: Localization)
        ensures
            r.translations() == data.strings@,
    {
        Localization { data }
    }

    /// The translation of `key`, or `key` itself when it has none.
    pub fn get(&self, key: &str) -> (r: String)
        ensures
            r@ == lookup_text(self.translations(), key@),
    {
        match self.data.strings.get(key) {
            Some(v) => v.clone(),
            None => String::from_str(key),
        }
    }
}

/// A key with a recorded translation reads back as that translation, and any
/// other key reads back as itself.
pub proof fn lemma_lookup_after_insert(
    translations: Map<Seq<char>, String>,
    key: Seq<char>,
    value: String,
    other: Seq<char>,
)
    ensures
        lookup_text(translations.insert(key, value), key) == value@,
        other != key ==> lookup_text(translations.insert(key, value), other) == lookup_text(
            translations,
            other,
        ),
        lookup_text(Map::<Seq<char>, String>::empty(), other) == other,
{
}

} // verus!
