//! Configuration and wire format of the dynamic regex rules.

use vstd::prelude::*;

use crate::patterns::texts;

verus! {

/// The seconds between two synchronisations where none are configured.
pub fn default_sync_interval_secs() -> (r: u64)
    ensures
        r == 3600,
{
    3600
}

/// Where rules come from, and how often.
#[derive(Clone, Debug, PartialEq, Eq)]
pub struct DynamicRegexConfig {
    pub urls: Vec<String>,
    pub sync_interval_secs: u64,
    pub fallback_cache_path: String,
}

impl Default for DynamicRegexConfig {
    fn default() -> (r: Self)
        ensures
            r.urls@.len() == 0,
            r.sync_interval_secs == 3600,
            r.fallback_cache_path@.len() == 0,
    {
        DynamicRegexConfig {
            urls: Vec::new(),
            sync_interval_secs: default_sync_interval_secs(),
            fallback_cache_path: String::new(),
        }
    }
}

/// A rule from a remote source or from the cache.
#[derive(Clone, Debug, PartialEq, Eq)]
pub struct DynamicRegexRule {
    pub pattern: String,
    pub description: Option<String>,
}

/// The three shapes in which a source may send its patterns: a list of rules,
/// a list of patterns under a name, or a bare list.
#[derive(Clone, Debug, PartialEq, Eq)]
pub enum RemoteRegexPayload {
    Rules { rules: Vec<DynamicRegexRule> },
    Patterns { patterns: Vec<String> },
    List(Vec<String>),
}

impl RemoteRegexPayload {
    /// The patterns of the payload, in order.
    pub open spec fn spec_patterns(self) -> Seq<Seq<char>> {
        match self {
            RemoteRegexPayload::Rules { rules } => rules@.map_values(
                |rule: DynamicRegexRule| rule.pattern@,
            ),
            RemoteRegexPayload::Patterns { patterns } => texts(patterns@),
            RemoteRegexPayload::List(patterns) => texts(patterns@),
        }
    }

    /// Takes the patterns out of the payload.
    pub fn into_patterns(self) -> (r: Vec<String>)
        ensures
            texts(r@) == self.spec_patterns(),
    {
        match self {
            RemoteRegexPayload::Rules { rules } => {
                let mut patterns: Vec<String> = Vec::new();
                let mut i: usize = 0;
                while i < rules.len()
                    invariant
                        i <= rules.len(),
                        patterns@.len() == i,
                        forall|j: int|
                            0 <= j < i ==> (#[trigger] patterns@[j])@ == rules@[j].pattern@,
                    decreases rules.len() - i,
                {
                    patterns.push(rules[i].pattern.clone());
                    i += 1;
                }
                assert(texts(patterns@) =~= rules@.map_values(
                    |rule: DynamicRegexRule| rule.pattern@,
                ));
                patterns
            },
            RemoteRegexPayload::Patterns { patterns } => patterns,
            RemoteRegexPayload::List(patterns) => patterns,
        }
    }
}

} // verus!
