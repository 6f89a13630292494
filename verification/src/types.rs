//! The values that the engine keeps and hands to the shell.

use vstd::prelude::*;

verus! {

/// The key under which the fallback override is kept.
pub const DEFAULT_PROVIDER_KEY: &'static str = "default";

/// Seconds after which a copied code is cleared from the clipboard, unless
/// configured otherwise.
pub const DEFAULT_CLIPBOARD_TIMEOUT_SECONDS: u64 = 30;

/// A passcode that was found in a message.
#[derive(Debug, PartialEq, Eq)]
pub struct CodeEntry {
    pub code: String,
    pub sender: String,
    pub provider: String,
    pub timestamp: i64,
    pub message_id: String,
}

impl Clone for CodeEntry {
    fn clone(&self) -> (r: Self)
        ensures
            r == *self,
    {
        CodeEntry {
            code: self.code.clone(),
            sender: self.sender.clone(),
            provider: self.provider.clone(),
            timestamp: self.timestamp,
            message_id: self.message_id.clone(),
        }
    }
}

impl CodeEntry {
    /// The pair that identifies the entry: the message it came from and the
    /// code itself.
    pub open spec fn key(self) -> (Seq<char>, Seq<char>) {
        (self.message_id@, self.code@)
    }
}

/// The outcome of a login attempt, as reported to the shell.
#[derive(Debug, PartialEq, Eq)]
pub struct AuthResult {
    pub success: bool,
    pub error: Option<String>,
}

impl Clone for AuthResult {
    fn clone(&self) -> (r: Self)
        ensures
            r == *self,
    {
        AuthResult {
            success: self.success,
            error: match &self.error {
                Some(e) => Some(e.clone()),
                None => None,
            },
        }
    }
}

/// How long a copied code stays on the clipboard.
#[derive(Clone, Copy, Debug, PartialEq, Eq, Structural)]
pub struct ClipboardConfig {
    pub timeout_seconds: u64,
}

impl Default for ClipboardConfig {
    fn default() -> (r: Self)
        ensures
            r.timeout_seconds == DEFAULT_CLIPBOARD_TIMEOUT_SECONDS,
    {
        ClipboardConfig { timeout_seconds: DEFAULT_CLIPBOARD_TIMEOUT_SECONDS }
    }
}

/// The map that a run of key-value pairs stands for. A later pair overrides
/// an earlier one with the same key.
pub open spec fn pairs_map(pairs: Seq<(String, bool)>) -> Map<Seq<char>, bool>
    decreases pairs.len(),
{
    if pairs.len() == 0 {
        Map::empty()
    } else {
        pairs_map(pairs.drop_last()).insert(pairs.last().0@, pairs.last().1)
    }
}

/// Replacing the last pair that holds a key replaces the key's value.
proof fn lemma_pairs_map_update(pairs: Seq<(String, bool)>, i: int, entry: (String, bool))
    requires
        0 <= i < pairs.len(),
        pairs[i].0@ == entry.0@,
        forall|j: int| i < j < pairs.len() ==> pairs[j].0@ != entry.0@,
    ensures
        pairs_map(pairs.update(i, entry)) == pairs_map(pairs).insert(entry.0@, entry.1),
    decreases pairs.len(),
{
    let updated = pairs.update(i, entry);
    if i == pairs.len() - 1 {
        assert(updated.drop_last() == pairs.drop_last());
        assert(pairs_map(updated) == pairs_map(pairs).insert(entry.0@, entry.1));
    } else {
        lemma_pairs_map_update(pairs.drop_last(), i, entry);
        assert(updated.drop_last() == pairs.drop_last().update(i, entry));
        assert(updated.last() == pairs.last());
        assert(pairs_map(updated) == pairs_map(pairs).insert(entry.0@, entry.1));
    }
}

/// A key that no pair holds is not in the map.
proof fn lemma_pairs_map_absent(pairs: Seq<(String, bool)>, key: Seq<char>)
    requires
        forall|j: int| 0 <= j < pairs.len() ==> pairs[j].0@ != key,
    ensures
        !pairs_map(pairs).contains_key(key),
    decreases pairs.len(),
{
    if pairs.len() > 0 {
        lemma_pairs_map_absent(pairs.drop_last(), key);
    }
}

/// The last pair that holds a key gives the key's value.
proof fn lemma_pairs_map_present(pairs: Seq<(String, bool)>, i: int)
    requires
        0 <= i < pairs.len(),
        forall|j: int| i < j < pairs.len() ==> pairs[j].0@ != pairs[i].0@,
    ensures
        pairs_map(pairs).contains_key(pairs[i].0@),
        pairs_map(pairs)[pairs[i].0@] == pairs[i].1,
    decreases pairs.len(),
{
    if i < pairs.len() - 1 {
        lemma_pairs_map_present(pairs.drop_last(), i);
    }
}

/// Per-provider auto-copy overrides: a finite map from provider name to flag.
#[derive(Debug)]
pub struct ProviderOverrides {
    pairs: Vec<(String, bool)>,
}

impl View for ProviderOverrides {
    type V = Map<Seq<char>, bool>;

    closed spec fn view(&self) -> Map<Seq<char>, bool> {
        pairs_map(self.pairs@)
    }
}

impl ProviderOverrides {
    /// No overrides.
    pub fn new() -> (r: Self)
        ensures
            r@ == Map::<Seq<char>, bool>::empty(),
    {
        ProviderOverrides { pairs: Vec::new() }
    }

    /// Position of the last pair that holds `key`.
    fn position(&self, key: &String) -> (r: Option<usize>)
        ensures
            match r {
                Some(i) => i < self.pairs@.len() && self.pairs@[i as int].0@ == key@ && forall|
                    j: int,
                | i < j < self.pairs@.len() ==> self.pairs@[j].0@ != key@,
                None => forall|j: int| 0 <= j < self.pairs@.len() ==> self.pairs@[j].0@ != key@,
            },
    {
        let mut i: usize = self.pairs.len();
        while i > 0
            invariant
                i <= self.pairs@.len(),
                forall|j: int| i <= j < self.pairs@.len() ==> self.pairs@[j].0@ != key@,
            decreases i,
        {
            i -= 1;
            if self.pairs[i].0 == *key {
                return Some(i);
            }
        }
        None
    }

    /// The override for `key`, if there is one.
    pub fn get(&self, key: &str) -> (r: Option<bool>)
        ensures
            r == (if self@.contains_key(key@) {
                Some(self@[key@])
            } else {
                None::<bool>
            }),
    {
        let owned = key.to_owned();
        match self.position(&owned) {
            Some(i) => {
                proof {
                    lemma_pairs_map_present(self.pairs@, i as int);
                }
                Some(self.pairs[i].1)
            },
            None => {
                proof {
                    lemma_pairs_map_absent(self.pairs@, key@);
                }
                None
            },
        }
    }

    /// Sets the override for `key`, replacing an earlier one.
    pub fn insert(&mut self, key: String, value: bool)
        ensures
            final(self)@ == old(self)@.insert(key@, value),
    {
        match self.position(&key) {
            Some(i) => {
                proof {
                    lemma_pairs_map_update(self.pairs@, i as int, (key, value));
                }
                self.pairs.set(i, (key, value));
            },
            None => {
                assert(self.pairs@.push((key, value)).drop_last() == self.pairs@);
                self.pairs.push((key, value));
            },
        }
    }

    /// The overrides as pairs, one for each key.
    pub fn entries(&self) -> (r: Vec<(String, bool)>)
        ensures
            pairs_map(r@) == self@,
    {
        let mut r: Vec<(String, bool)> = Vec::new();
        let mut i: usize = 0;
        while i < self.pairs.len()
            invariant
                i <= self.pairs@.len(),
                r@ == self.pairs@.take(i as int),
            decreases self.pairs@.len() - i,
        {
            r.push((self.pairs[i].0.clone(), self.pairs[i].1));
            i += 1;
        }
        assert(self.pairs@.take(self.pairs@.len() as int) == self.pairs@);
        r
    }
}

impl Clone for ProviderOverrides {
    fn clone(&self) -> (r: Self)
        ensures
            r@ == self@,
    {
        ProviderOverrides { pairs: self.entries() }
    }
}

/// Whether a new code from `provider` is copied to the clipboard.
///
/// Nothing is copied while the global flag is off. Otherwise the provider's
/// own override decides; without one, the override under `"default"`;
/// without that, the code is copied.
pub open spec fn auto_copy_allowed(
    enabled: bool,
    overrides: Map<Seq<char>, bool>,
    provider: Seq<char>,
) -> bool {
    if !enabled {
        false
    } else if overrides.contains_key(provider) {
        overrides[provider]
    } else if overrides.contains_key(DEFAULT_PROVIDER_KEY@) {
        overrides[DEFAULT_PROVIDER_KEY@]
    } else {
        true
    }
}

/// What the user has chosen about copying codes.
#[derive(Debug)]
pub struct PrivacyPreferences {
    pub auto_copy_enabled: bool,
    pub provider_auto_copy: ProviderOverrides,
}

impl Clone for PrivacyPreferences {
    fn clone(&self) -> (r: Self)
        ensures
            r.auto_copy_enabled == self.auto_copy_enabled,
            r.provider_auto_copy@ == self.provider_auto_copy@,
    {
        PrivacyPreferences {
            auto_copy_enabled: self.auto_copy_enabled,
            provider_auto_copy: self.provider_auto_copy.clone(),
        }
    }
}

impl Default for PrivacyPreferences {
    fn default() -> (r: Self)
        ensures
            r.auto_copy_enabled,
            r.provider_auto_copy@ == Map::<Seq<char>, bool>::empty().insert(
                DEFAULT_PROVIDER_KEY@,
                true,
            ),
    {
        let mut provider_auto_copy = ProviderOverrides::new();
        provider_auto_copy.insert(DEFAULT_PROVIDER_KEY.to_owned(), true);
        PrivacyPreferences { auto_copy_enabled: true, provider_auto_copy }
    }
}

impl PrivacyPreferences {
    /// Whether a new code from `provider` is copied to the clipboard.
    pub fn should_auto_copy(&self, provider: &str) -> (r: bool)
        ensures
            r == auto_copy_allowed(self.auto_copy_enabled, self.provider_auto_copy@, provider@),
    {
        if !self.auto_copy_enabled {
            return false;
        }
        match self.provider_auto_copy.get(provider) {
            Some(flag) => flag,
            None => match self.provider_auto_copy.get(DEFAULT_PROVIDER_KEY) {
                Some(flag) => flag,
                None => true,
            },
        }
    }

    /// Turns auto-copy on or off as a whole.
    pub fn set_auto_copy_enabled(&mut self, enabled: bool)
        ensures
            final(self).auto_copy_enabled == enabled,
            final(self).provider_auto_copy@ == old(self).provider_auto_copy@,
    {
        self.auto_copy_enabled = enabled;
    }

    /// Sets the override for one provider.
    pub fn set_provider_auto_copy(&mut self, provider: String, enabled: bool)
        ensures
            final(self).auto_copy_enabled == old(self).auto_copy_enabled,
            final(self).provider_auto_copy@ == old(self).provider_auto_copy@.insert(
                provider@,
                enabled,
            ),
    {
        self.provider_auto_copy.insert(provider, enabled);
    }
}

/// A provider's own override decides, whatever is kept under `"default"`.
pub proof fn lemma_provider_override_wins(
    overrides: Map<Seq<char>, bool>,
    provider: Seq<char>,
)
    requires
        overrides.contains_key(provider),
    ensures
        auto_copy_allowed(true, overrides, provider) == overrides[provider],
{
}

/// Without an override of its own, a provider follows the one under
/// `"default"`.
pub proof fn lemma_default_override_applies(
    overrides: Map<Seq<char>, bool>,
    provider: Seq<char>,
)
    requires
        !overrides.contains_key(provider),
        overrides.contains_key(DEFAULT_PROVIDER_KEY@),
    ensures
        auto_copy_allowed(true, overrides, provider) == overrides[DEFAULT_PROVIDER_KEY@],
{
}

/// With no override at all, codes are copied while the global flag is on.
pub proof fn lemma_auto_copy_implicit(overrides: Map<Seq<char>, bool>, provider: Seq<char>)
    requires
        !overrides.contains_key(provider),
        !overrides.contains_key(DEFAULT_PROVIDER_KEY@),
    ensures
        auto_copy_allowed(true, overrides, provider),
{
}

/// While the global flag is off nothing is copied, whatever the overrides.
pub proof fn lemma_auto_copy_disabled(overrides: Map<Seq<char>, bool>, provider: Seq<char>)
    ensures
        !auto_copy_allowed(false, overrides, provider),
{
}

} // verus!
