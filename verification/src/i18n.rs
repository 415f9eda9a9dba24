//! Translation table: localized label texts keyed by short names, with the
//! key itself as fallback when a translation is missing. The table is built
//! once at startup from plain key/value pairs and is read-only afterwards.

use vstd::prelude::*;

verus! {

/// The value the table associates with `key`: the first pair whose key
/// matches, scanned front to back.
pub open spec fn spec_lookup(entries: Seq<(Seq<char>, Seq<char>)>, key: Seq<char>) -> Option<
    Seq<char>,
>
    decreases entries.len(),
{
    if entries.len() == 0 {
        None
    } else if entries[0].0 == key {
        Some(entries[0].1)
    } else {
        spec_lookup(entries.skip(1), key)
    }
}

/// What a lookup returns once the fallback is applied: the stored text, or
/// the key itself when no pair matches.
pub open spec fn spec_get(entries: Seq<(Seq<char>, Seq<char>)>, key: Seq<char>) -> Seq<char> {
    match spec_lookup(entries, key) {
        Some(text) => text,
        None => key,
    }
}

/// Localized label texts, immutable after construction.
pub struct Translations {
    pub entries: Vec<(String, String)>,
}

impl View for Translations {
    type V = Seq<(Seq<char>, Seq<char>)>;

    open spec fn view(&self) -> Seq<(Seq<char>, Seq<char>)> {
        self.entries@.map_values(|p: (String, String)| (p.0@, p.1@))
    }
}

impl Translations {
    /// Builds the table from the key/value pairs the loader hands over.
    pub fn new(entries: Vec<(String, String)>) -> (r: Translations)
        ensures
            r@ == entries@.map_values(|p: (String, String)| (p.0@, p.1@)),
    {
        Translations { entries }
    }

    /// An empty table: every lookup falls back to the key itself.
    pub fn empty() -> (r: Translations)
        ensures
            r@ == Seq::<(Seq<char>, Seq<char>)>::empty(),
    {
        let r = Translations { entries: Vec::new() };
        proof {
            assert(r@ =~= Seq::<(Seq<char>, Seq<char>)>::empty());
        }
        r
    }

    /// The text stored under `key`, or `key` itself when the table has no
    /// entry for it.
    pub fn get(&self, key: &str) -> (r: String)
        ensures
            r@ == spec_get(self@, key@),
    {
        let key_string = key.to_owned();
        let n = self.entries.len();
        let mut i: usize = 0;
        proof {
            assert(self@.skip(0) =~= self@);
        }
        while i < n
            invariant
                n == self.entries.len(),
                i <= n,
                key_string@ == key@,
                spec_lookup(self@, key@) == spec_lookup(self@.skip(i as int), key@),
            decreases n - i,
        {
            if self.entries[i].0 == key_string {
                assert(self@.skip(i as int)[0] == self@[i as int]);
                return self.entries[i].1.clone();
            }
            proof {
                assert(self@.skip(i as int)[0] == self@[i as int]);
                assert(self@.skip(i as int).skip(1) =~= self@.skip(i as int + 1));
            }
            i = i + 1;
        }
        proof {
            assert(self@.skip(n as int).len() == 0);
        }
        key_string
    }
}

/// Whether a BCP-47 locale tag names a Chinese locale: the tag starts with
/// the two letters `zh`.
pub fn is_chinese_locale(locale: &str) -> (r: bool)
    ensures
        r == (locale@.len() >= 2 && locale@[0] == 'z' && locale@[1] == 'h'),
{
    let n = locale.unicode_len();
    if n < 2 {
        return false;
    }
    let c0 = locale.get_char(0);
    let c1 = locale.get_char(1);
    c0 == 'z' && c1 == 'h'
}

} // verus!
