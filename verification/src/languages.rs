//! Language definitions and extension-based detection. Reading definition
//! files from disk belongs to the host harness; the registry and the
//! detection rule live here.

use vstd::prelude::*;
use crate::smap::StrMap;
use crate::text::str_eq;

verus! {

/// One language: its id, the file extensions it claims, its tokenizer
/// name, and the token-class mapping into theme names.
pub struct LanguageDefinition {
    pub id: String,
    pub extensions: Vec<String>,
    pub tokenizer: String,
    pub theme_mapping: Vec<(String, String)>,
}

/// The file extension of a name: everything after the last dot, or nothing
/// without a dot.
pub open spec fn extension_of(s: Seq<char>) -> Option<Seq<char>>
    decreases s.len(),
{
    if s.len() == 0 {
        Option::None
    } else if s.last() == '.' {
        Option::Some(Seq::empty())
    } else {
        match extension_of(s.drop_last()) {
            Option::Some(e) => Option::Some(e.push(s.last())),
            Option::None => Option::None,
        }
    }
}

/// The file extension of a name.
pub fn extension_exec(s: &str) -> (r: Option<String>)
    ensures
        match r {
            Some(e) => extension_of(s@) == Option::Some(e@),
            None => extension_of(s@) is None,
        },
{
    let n = s.unicode_len();
    let mut k: usize = n;
    while k > 0
        invariant
            k <= n,
            n == s@.len(),
            forall|j: int| k <= j < n ==> s@[j] != '.',
        decreases k,
    {
        k -= 1;
        if s.get_char(k) == '.' {
            let e = s.substring_char(k + 1, n).to_owned();
            proof {
                lemma_extension_at(s@, k as int);
                assert(e@ =~= s@.skip(k + 1));
            }
            return Some(e);
        }
    }
    proof {
        lemma_no_dot(s@);
    }
    None
}

proof fn lemma_extension_at(s: Seq<char>, k: int)
    requires
        0 <= k < s.len(),
        s[k] == '.',
        forall|j: int| k < j < s.len() ==> s[j] != '.',
    ensures
        extension_of(s) == Option::Some(s.skip(k + 1)),
    decreases s.len(),
{
    if k == s.len() - 1 {
        assert(s.skip(k + 1) =~= Seq::<char>::empty());
    } else {
        lemma_extension_at(s.drop_last(), k);
        assert(s.drop_last().skip(k + 1).push(s.last()) =~= s.skip(k + 1));
    }
}

proof fn lemma_no_dot(s: Seq<char>)
    requires
        forall|j: int| 0 <= j < s.len() ==> s[j] != '.',
    ensures
        extension_of(s) is None,
    decreases s.len(),
{
    if s.len() > 0 {
        lemma_no_dot(s.drop_last());
    }
}

/// Whether the definition claims the extension.
fn claims_extension(d: &LanguageDefinition, e: &str) -> (r: bool)
    ensures
        r == exists|i: int|
            0 <= i < d.extensions@.len() && (#[trigger] d.extensions@[i])@ == e@,
{
    let n = d.extensions.len();
    let mut i: usize = 0;
    while i < n
        invariant
            i <= n,
            n == d.extensions@.len(),
            forall|j: int| 0 <= j < i ==> (#[trigger] d.extensions@[j])@ != e@,
        decreases n - i,
    {
        if str_eq(d.extensions[i].as_str(), e) {
            return true;
        }
        i += 1;
    }
    false
}

/// The registered languages by id.
pub struct LanguageRegistry {
    languages: StrMap<LanguageDefinition>,
}

impl LanguageRegistry {
    /// The registered languages by id.
    pub closed spec fn registered(&self) -> Map<Seq<char>, LanguageDefinition> {
        self.languages@
    }

    /// An empty registry.
    pub fn new() -> (r: LanguageRegistry)
        ensures
            r.registered() == Map::<Seq<char>, LanguageDefinition>::empty(),
    {
        LanguageRegistry { languages: StrMap::new() }
    }

    /// Registers a language definition under its id, replacing any earlier
    /// definition; a reloaded definition file lands here again.
    pub fn load_language(&mut self, definition: LanguageDefinition)
        ensures
            final(self).registered() == old(self).registered().insert(
                definition.id@,
                definition,
            ),
    {
        let key = definition.id.clone();
        self.languages.insert(key, definition);
    }

    /// The language whose claimed extensions include the file's, by the
    /// text after the name's last dot.
    pub fn detect_language(&self, filename: &str) -> (r: Option<&LanguageDefinition>)
        ensures
            match r {
                Some(d) => {
                    &&& extension_of(filename@) matches Option::Some(e)
                    &&& exists|k: Seq<char>|
                        self.registered().contains_key(k) && self.registered()[k] == *d
                    &&& exists|i: int|
                        0 <= i < d.extensions@.len() && (#[trigger] d.extensions@[i])@ == e
                },
                None => true,
            },
    {
        let ext = match extension_exec(filename) {
            Some(e) => e,
            None => {
                return None;
            }
        };
        let ids = self.languages.keys();
        let n = ids.len();
        let mut i: usize = 0;
        while i < n
            invariant
                i <= n,
                n == ids@.len(),
                extension_of(filename@) == Option::Some(ext@),
                forall|j: int|
                    0 <= j < n ==> self.registered().contains_key((#[trigger] ids@[j])@),
            decreases n - i,
        {
            match self.languages.get(ids[i].as_str()) {
                Some(d) => {
                    if claims_extension(d, ext.as_str()) {
                        proof {
                            assert(self.registered().contains_key(ids@[i as int]@)
                                && self.registered()[ids@[i as int]@] == *d);
                        }
                        return Some(d);
                    }
                }
                None => {}
            }
            i += 1;
        }
        None
    }
}

} // verus!
