//! Dropdown classification oracle boundary: the structured shapes a
//! language-model response must fit, their validation from plain values,
//! and the per-run cache of classifications keyed by a coarse content
//! fingerprint (selector and HTML byte length).
//!
//! The HTTP call itself and the JSON decode of the free-text completion are
//! the embedding's concern; this module receives the decoded plain fields
//! and owes an exact verdict on them.

use vstd::prelude::*;
use vstd::pervasive::VecAdditionalExecFns;
use crate::text::{str_eq, chars_of, trim_chars, trimmed, string_from_chars};

verus! {

/// The eight dropdown variants the oracle may report.
#[derive(Clone, Copy, Debug, PartialEq, Eq, Structural)]
pub enum DropdownType {
    StandardSelect,
    CustomDiv,
    ReactComponent,
    VueComponent,
    AriaDropdown,
    MultiSelect,
    SearchableDropdown,
    CascadingDropdown,
}

/// The five interaction strategies; the closed set the engine dispatches
/// over.
#[derive(Clone, Copy, Debug, PartialEq, Eq, Structural)]
pub enum InteractionStrategy {
    DirectSelect,
    ClickToOpen,
    KeyboardNavigation,
    TypeToSearch,
    MultiStep,
}

/// Why an oracle response was rejected.
#[derive(Clone, Copy, Debug, PartialEq, Eq, Structural)]
pub enum OracleError {
    UnknownDropdownType,
    UnknownStrategy,
    ConfidenceOutOfRange,
}

/// The oracle's structured classification of one dropdown element.
/// Confidence is held in percent, zero to one hundred.
pub struct DropdownAnalysis {
    pub dropdown_type: DropdownType,
    pub interaction_strategy: InteractionStrategy,
    pub trigger_selector: Option<String>,
    pub options_container_selector: Option<String>,
    pub requires_scroll: bool,
    pub is_dynamic: bool,
    pub confidence: u8,
    pub reasoning: String,
}

/// The oracle's analysis of a failed selection.  Confidence is held in
/// percent.
pub struct FailureAnalysis {
    pub likely_cause: String,
    pub suggested_fixes: Vec<String>,
    pub alternative_selectors: Vec<String>,
    pub retry_strategy: InteractionStrategy,
    pub confidence: u8,
}

/// The oracle's description of a dropdown's asynchronous option loading.
pub struct LoadingStrategy {
    pub has_dynamic_loading: bool,
    pub loading_indicators: Vec<String>,
    pub estimated_wait_time: u32,
    pub trigger_conditions: Vec<String>,
}

/// A classification as decoded from the response text, before validation:
/// the enumerations still as strings, the confidence as the rounded
/// percent the number in the response works out to.
pub struct RawDropdownAnalysis {
    pub dropdown_type: String,
    pub interaction_strategy: String,
    pub trigger_selector: Option<String>,
    pub options_container_selector: Option<String>,
    pub requires_scroll: bool,
    pub is_dynamic: bool,
    pub confidence: i64,
    pub reasoning: String,
}

/// A failure analysis as decoded from the response text, before
/// validation.
pub struct RawFailureAnalysis {
    pub likely_cause: String,
    pub suggested_fixes: Vec<String>,
    pub alternative_selectors: Vec<String>,
    pub retry_strategy: String,
    pub confidence: i64,
}

impl DropdownAnalysis {
    /// A value equal to this one, field for field.
    pub fn duplicate(&self) -> (r: Self)
        ensures
            r == *self,
    {
        DropdownAnalysis {
            dropdown_type: self.dropdown_type,
            interaction_strategy: self.interaction_strategy,
            trigger_selector: match &self.trigger_selector {
                Some(s) => Some(s.clone()),
                None => None,
            },
            options_container_selector: match &self.options_container_selector {
                Some(s) => Some(s.clone()),
                None => None,
            },
            requires_scroll: self.requires_scroll,
            is_dynamic: self.is_dynamic,
            confidence: self.confidence,
            reasoning: self.reasoning.clone(),
        }
    }
}

// ---------------------------------------------------------------------------
// Validating the enumerations
// ---------------------------------------------------------------------------
/// The dropdown variant a response string names, if any.
pub open spec fn dropdown_type_of(s: Seq<char>) -> Option<DropdownType> {
    if s == "StandardSelect"@ {
        Some(DropdownType::StandardSelect)
    } else if s == "CustomDiv"@ {
        Some(DropdownType::CustomDiv)
    } else if s == "ReactComponent"@ {
        Some(DropdownType::ReactComponent)
    } else if s == "VueComponent"@ {
        Some(DropdownType::VueComponent)
    } else if s == "AriaDropdown"@ {
        Some(DropdownType::AriaDropdown)
    } else if s == "MultiSelect"@ {
        Some(DropdownType::MultiSelect)
    } else if s == "SearchableDropdown"@ {
        Some(DropdownType::SearchableDropdown)
    } else if s == "CascadingDropdown"@ {
        Some(DropdownType::CascadingDropdown)
    } else {
        None
    }
}

/// The variant named by `s`, exactly when `s` is one of the eight variant
/// names.
pub fn parse_dropdown_type(s: &str) -> (r: Option<DropdownType>)
    ensures
        r == dropdown_type_of(s@),
{
    if str_eq(s, "StandardSelect") {
        Some(DropdownType::StandardSelect)
    } else if str_eq(s, "CustomDiv") {
        Some(DropdownType::CustomDiv)
    } else if str_eq(s, "ReactComponent") {
        Some(DropdownType::ReactComponent)
    } else if str_eq(s, "VueComponent") {
        Some(DropdownType::VueComponent)
    } else if str_eq(s, "AriaDropdown") {
        Some(DropdownType::AriaDropdown)
    } else if str_eq(s, "MultiSelect") {
        Some(DropdownType::MultiSelect)
    } else if str_eq(s, "SearchableDropdown") {
        Some(DropdownType::SearchableDropdown)
    } else if str_eq(s, "CascadingDropdown") {
        Some(DropdownType::CascadingDropdown)
    } else {
        None
    }
}

/// The interaction strategy a response string names, if any.
pub open spec fn strategy_of(s: Seq<char>) -> Option<InteractionStrategy> {
    if s == "DirectSelect"@ {
        Some(InteractionStrategy::DirectSelect)
    } else if s == "ClickToOpen"@ {
        Some(InteractionStrategy::ClickToOpen)
    } else if s == "KeyboardNavigation"@ {
        Some(InteractionStrategy::KeyboardNavigation)
    } else if s == "TypeToSearch"@ {
        Some(InteractionStrategy::TypeToSearch)
    } else if s == "MultiStep"@ {
        Some(InteractionStrategy::MultiStep)
    } else {
        None
    }
}

/// The strategy named by `s`, exactly when `s` is one of the five strategy
/// names.
pub fn parse_interaction_strategy(s: &str) -> (r: Option<InteractionStrategy>)
    ensures
        r == strategy_of(s@),
{
    if str_eq(s, "DirectSelect") {
        Some(InteractionStrategy::DirectSelect)
    } else if str_eq(s, "ClickToOpen") {
        Some(InteractionStrategy::ClickToOpen)
    } else if str_eq(s, "KeyboardNavigation") {
        Some(InteractionStrategy::KeyboardNavigation)
    } else if str_eq(s, "TypeToSearch") {
        Some(InteractionStrategy::TypeToSearch)
    } else if str_eq(s, "MultiStep") {
        Some(InteractionStrategy::MultiStep)
    } else {
        None
    }
}

// ---------------------------------------------------------------------------
// Validating whole responses
// ---------------------------------------------------------------------------
/// The verdict on a decoded classification: the structured analysis when
/// the variant and strategy names are among the enumerated ones and the
/// confidence lies in range, else the first violation found.
pub open spec fn analysis_of_raw(raw: RawDropdownAnalysis) -> Result<
    DropdownAnalysis,
    OracleError,
> {
    match dropdown_type_of(raw.dropdown_type@) {
        None => Err(OracleError::UnknownDropdownType),
        Some(t) => match strategy_of(raw.interaction_strategy@) {
            None => Err(OracleError::UnknownStrategy),
            Some(s) => if raw.confidence < 0 || raw.confidence > 100 {
                Err(OracleError::ConfidenceOutOfRange)
            } else {
                Ok(
                    DropdownAnalysis {
                        dropdown_type: t,
                        interaction_strategy: s,
                        trigger_selector: raw.trigger_selector,
                        options_container_selector: raw.options_container_selector,
                        requires_scroll: raw.requires_scroll,
                        is_dynamic: raw.is_dynamic,
                        confidence: raw.confidence as u8,
                        reasoning: raw.reasoning,
                    },
                )
            },
        },
    }
}

/// Validates a decoded classification response.  Fails, and says why, on
/// exactly the responses whose shape the oracle contract rejects.
pub fn parse_dropdown_analysis(raw: RawDropdownAnalysis) -> (r: Result<
    DropdownAnalysis,
    OracleError,
>)
    ensures
        r == analysis_of_raw(raw),
        r matches Ok(a) ==> a.confidence <= 100,
{
    let t = match parse_dropdown_type(raw.dropdown_type.as_str()) {
        Some(t) => t,
        None => {
            return Err(OracleError::UnknownDropdownType);
        },
    };
    let s = match parse_interaction_strategy(raw.interaction_strategy.as_str()) {
        Some(s) => s,
        None => {
            return Err(OracleError::UnknownStrategy);
        },
    };
    if raw.confidence < 0 || raw.confidence > 100 {
        return Err(OracleError::ConfidenceOutOfRange);
    }
    Ok(
        DropdownAnalysis {
            dropdown_type: t,
            interaction_strategy: s,
            trigger_selector: raw.trigger_selector,
            options_container_selector: raw.options_container_selector,
            requires_scroll: raw.requires_scroll,
            is_dynamic: raw.is_dynamic,
            confidence: raw.confidence as u8,
            reasoning: raw.reasoning,
        },
    )
}

/// The verdict on a decoded failure analysis.
pub open spec fn failure_analysis_of_raw(raw: RawFailureAnalysis) -> Result<
    FailureAnalysis,
    OracleError,
> {
    match strategy_of(raw.retry_strategy@) {
        None => Err(OracleError::UnknownStrategy),
        Some(s) => if raw.confidence < 0 || raw.confidence > 100 {
            Err(OracleError::ConfidenceOutOfRange)
        } else {
            Ok(
                FailureAnalysis {
                    likely_cause: raw.likely_cause,
                    suggested_fixes: raw.suggested_fixes,
                    alternative_selectors: raw.alternative_selectors,
                    retry_strategy: s,
                    confidence: raw.confidence as u8,
                },
            )
        },
    }
}

/// Validates a decoded failure-analysis response.
pub fn parse_failure_analysis(raw: RawFailureAnalysis) -> (r: Result<FailureAnalysis, OracleError>)
    ensures
        r == failure_analysis_of_raw(raw),
        r matches Ok(a) ==> a.confidence <= 100,
{
    let s = match parse_interaction_strategy(raw.retry_strategy.as_str()) {
        Some(s) => s,
        None => {
            return Err(OracleError::UnknownStrategy);
        },
    };
    if raw.confidence < 0 || raw.confidence > 100 {
        return Err(OracleError::ConfidenceOutOfRange);
    }
    Ok(
        FailureAnalysis {
            likely_cause: raw.likely_cause,
            suggested_fixes: raw.suggested_fixes,
            alternative_selectors: raw.alternative_selectors,
            retry_strategy: s,
            confidence: raw.confidence as u8,
        },
    )
}

/// What an option-match response that did not decode as JSON still
/// suggests: the response text itself, trimmed, when anything is left.
pub open spec fn fallback_suggestion_of(raw: Seq<char>) -> Option<Seq<char>> {
    if trimmed(raw).len() > 0 {
        Some(trimmed(raw))
    } else {
        None
    }
}

/// The whole response, trimmed, taken as the suggested option when the
/// response did not decode as JSON; nothing when only blanks remain.
pub fn fallback_suggestion(raw: &str) -> (r: Option<String>)
    ensures
        match r {
            Some(s) => fallback_suggestion_of(raw@) == Some(s@),
            None => fallback_suggestion_of(raw@) is None,
        },
{
    let v = chars_of(raw);
    let t = trim_chars(&v);
    if t.len() > 0 {
        Some(string_from_chars(&t))
    } else {
        None
    }
}

/// The suggested option of an option-match call: the decoded field when
/// the response parsed as JSON, else the trimmed free text.
pub fn suggested_or_fallback(parsed: Option<String>, raw: &str) -> (r: Option<String>)
    ensures
        match parsed {
            Some(s) => r == Some(s),
            None => match r {
                Some(s) => fallback_suggestion_of(raw@) == Some(s@),
                None => fallback_suggestion_of(raw@) is None,
            },
        },
{
    match parsed {
        Some(s) => Some(s),
        None => fallback_suggestion(raw),
    }
}

// ---------------------------------------------------------------------------
// The classification cache
// ---------------------------------------------------------------------------
/// One cached classification, keyed by the selector and the HTML byte
/// length it was made for.
pub struct CacheEntry {
    pub selector: String,
    pub html_len: usize,
    pub analysis: DropdownAnalysis,
}

/// The cached analysis under `(sel, len)`, if any.
pub open spec fn cache_lookup(
    entries: Seq<CacheEntry>,
    sel: Seq<char>,
    len: int,
) -> Option<DropdownAnalysis>
    decreases entries.len(),
{
    if entries.len() == 0 {
        None
    } else if entries[0].selector@ == sel && entries[0].html_len == len {
        Some(entries[0].analysis)
    } else {
        cache_lookup(entries.skip(1), sel, len)
    }
}

/// Appending an entry leaves every other fingerprint's lookup unchanged.
proof fn lemma_cache_push_frame(entries: Seq<CacheEntry>, e: CacheEntry, sel: Seq<char>, len: int)
    requires
        e.selector@ != sel || e.html_len != len,
    ensures
        cache_lookup(entries.push(e), sel, len) == cache_lookup(entries, sel, len),
    decreases entries.len(),
{
    if entries.len() == 0 {
        assert(entries.push(e)[0] == e);
        assert(entries.push(e).skip(1) =~= Seq::<CacheEntry>::empty());
        assert(cache_lookup(entries.push(e).skip(1), sel, len) is None);
        assert(cache_lookup(entries.push(e), sel, len) is None);
    } else {
        assert(entries.push(e)[0] == entries[0]);
        assert(entries.push(e).skip(1) =~= entries.skip(1).push(e));
        lemma_cache_push_frame(entries.skip(1), e, sel, len);
        assert(cache_lookup(entries.push(e).skip(1), sel, len) == cache_lookup(
            entries.skip(1),
            sel,
            len,
        ));
    }
}

/// When no entry matches, appending one that does makes the lookup find it.
proof fn lemma_cache_push_hit(entries: Seq<CacheEntry>, e: CacheEntry)
    requires
        cache_lookup(entries, e.selector@, e.html_len as int) is None,
    ensures
        cache_lookup(entries.push(e), e.selector@, e.html_len as int) == Some(e.analysis),
    decreases entries.len(),
{
    if entries.len() == 0 {
        assert(entries.push(e)[0] == e);
    } else {
        assert(entries.push(e)[0] == entries[0]);
        assert(entries.push(e).skip(1) =~= entries.skip(1).push(e));
        lemma_cache_push_hit(entries.skip(1), e);
    }
}

/// The in-process dropdown classification service: the cache of analyses
/// for this run.  Entries never expire within a run.
pub struct SmartDropdownService {
    pub dropdown_cache: Vec<CacheEntry>,
}

impl SmartDropdownService {
    /// A fresh service with an empty cache.
    pub fn new() -> (r: Self)
        ensures
            r.dropdown_cache@.len() == 0,
    {
        SmartDropdownService { dropdown_cache: Vec::new() }
    }

    /// The cached classification for `selector` and this exact HTML, keyed
    /// by the HTML's byte length — the run's coarse content fingerprint.
    /// `Some` exactly when a classification was recorded under the same
    /// fingerprint, and then no upstream call is owed.
    pub fn lookup_analysis(&self, selector: &str, html_len: usize) -> (r: Option<DropdownAnalysis>)
        ensures
            match r {
                Some(a) => cache_lookup(self.dropdown_cache@, selector@, html_len as int) == Some(
                    a,
                ),
                None => cache_lookup(self.dropdown_cache@, selector@, html_len as int) is None,
            },
    {
        let len: usize = html_len;
        let entries = &self.dropdown_cache;
        let mut i: usize = 0;
        proof {
            assert(entries@.skip(0) =~= entries@);
        }
        while i < entries.len()
            invariant
                i <= entries@.len(),
                len == html_len,
                entries@ == self.dropdown_cache@,
                cache_lookup(entries@, selector@, len as int) == cache_lookup(
                    entries@.skip(i as int),
                    selector@,
                    len as int,
                ),
            decreases entries@.len() - i,
        {
            proof {
                assert(entries@.skip(i as int)[0] == entries@[i as int]);
            }
            if str_eq(entries[i].selector.as_str(), selector) && entries[i].html_len == len {
                return Some(entries[i].analysis.duplicate());
            }
            proof {
                assert(entries@.skip(i as int).skip(1) =~= entries@.skip(i + 1));
            }
            i = i + 1;
        }
        None
    }

    /// Records the classification the upstream call produced for
    /// `selector` and this HTML.  Afterwards the same fingerprint is
    /// answered from the cache with exactly this analysis — so a second
    /// identical classification request costs no upstream call — while
    /// every other fingerprint, in particular the same selector with a
    /// changed HTML length, is answered as before.
    pub fn record_analysis(&mut self, selector: &str, html_len: usize, analysis: DropdownAnalysis)
        ensures
            cache_lookup(final(self).dropdown_cache@, selector@, html_len as int) == Some(
                analysis,
            ),
            forall|s: Seq<char>, l: int|
                (s != selector@ || l != html_len as int) ==> #[trigger] cache_lookup(
                    final(self).dropdown_cache@,
                    s,
                    l,
                ) == cache_lookup(old(self).dropdown_cache@, s, l),
    {
        let len: usize = html_len;
        let n = self.dropdown_cache.len();
        let mut i: usize = 0;
        proof {
            assert(self.dropdown_cache@.skip(0) =~= self.dropdown_cache@);
        }
        while i < n
            invariant
                i <= n,
                n == self.dropdown_cache@.len(),
                self == old(self),
                len == html_len,
                forall|k: int|
                    0 <= k < i ==> !((#[trigger] self.dropdown_cache@[k]).selector@ == selector@
                        && self.dropdown_cache@[k].html_len == len),
            decreases n - i,
        {
            if str_eq(self.dropdown_cache[i].selector.as_str(), selector)
                && self.dropdown_cache[i].html_len == len {
                let entry = CacheEntry {
                    selector: String::from_str(selector),
                    html_len: len,
                    analysis,
                };
                let ghost before = self.dropdown_cache@;
                self.dropdown_cache.set(i, entry);
                proof {
                    lemma_cache_update(before, self.dropdown_cache@[i as int], i as int);
                }
                return ;
            }
            i = i + 1;
        }
        let entry = CacheEntry { selector: String::from_str(selector), html_len: len, analysis };
        let ghost before = self.dropdown_cache@;
        self.dropdown_cache.push(entry);
        proof {
            lemma_cache_none(before, selector@, len as int);
            lemma_cache_push_hit(before, self.dropdown_cache@.last());
            assert forall|s: Seq<char>, l: int|
                (s != selector@ || l != len as int) implies #[trigger] cache_lookup(
                self.dropdown_cache@,
                s,
                l,
            ) == cache_lookup(before, s, l) by {
                lemma_cache_push_frame(before, self.dropdown_cache@.last(), s, l);
            }
        }
    }
}

impl SmartDropdownService {
    /// Accepts an upstream classification for `selector` and this HTML:
    /// validates the decoded response, and on success records it under the
    /// fingerprint, so the next identical request is answered from the
    /// cache.  A malformed response changes nothing and says why it was
    /// rejected.
    pub fn accept_classification(
        &mut self,
        selector: &str,
        html_len: usize,
        raw: RawDropdownAnalysis,
    ) -> (r: Result<DropdownAnalysis, OracleError>)
        ensures
            r == analysis_of_raw(raw),
            match r {
                Ok(a) => cache_lookup(final(self).dropdown_cache@, selector@, html_len as int)
                    == Some(a) && forall|s: Seq<char>, l: int|
                    (s != selector@ || l != html_len as int) ==> #[trigger] cache_lookup(
                        final(self).dropdown_cache@,
                        s,
                        l,
                    ) == cache_lookup(old(self).dropdown_cache@, s, l),
                Err(_) => *final(self) == *old(self),
            },
    {
        match parse_dropdown_analysis(raw) {
            Ok(a) => {
                self.record_analysis(selector, html_len, a.duplicate());
                Ok(a)
            },
            Err(e) => Err(e),
        }
    }
}

/// A lookup that misses means no entry carries that fingerprint.
proof fn lemma_cache_none(entries: Seq<CacheEntry>, sel: Seq<char>, len: int)
    requires
        forall|k: int|
            0 <= k < entries.len() ==> !((#[trigger] entries[k]).selector@ == sel
                && entries[k].html_len == len),
    ensures
        cache_lookup(entries, sel, len) is None,
    decreases entries.len(),
{
    if entries.len() > 0 {
        assert(forall|k: int|
            0 <= k < entries.len() - 1 ==> entries.skip(1)[k] == #[trigger] entries[k + 1]);
        lemma_cache_none(entries.skip(1), sel, len);
    }
}

/// Replacing the entry at `i` with one of the same fingerprint rewrites
/// that fingerprint's lookup and leaves every other one unchanged.
proof fn lemma_cache_update(entries: Seq<CacheEntry>, e: CacheEntry, i: int)
    requires
        0 <= i < entries.len(),
        entries[i].selector@ == e.selector@,
        entries[i].html_len == e.html_len,
        forall|k: int|
            0 <= k < i ==> !((#[trigger] entries[k]).selector@ == e.selector@
                && entries[k].html_len == e.html_len),
    ensures
        cache_lookup(entries.update(i, e), e.selector@, e.html_len as int) == Some(e.analysis),
        forall|s: Seq<char>, l: int|
            (s != e.selector@ || l != e.html_len as int) ==> #[trigger] cache_lookup(
                entries.update(i, e),
                s,
                l,
            ) == cache_lookup(entries, s, l),
    decreases i,
{
    if i == 0 {
        assert(entries.update(0, e)[0] == e);
        assert(entries.update(0, e).skip(1) =~= entries.skip(1));
        assert forall|s: Seq<char>, l: int|
            (s != e.selector@ || l != e.html_len as int) implies #[trigger] cache_lookup(
            entries.update(0, e),
            s,
            l,
        ) == cache_lookup(entries, s, l) by {
            assert(entries.update(0, e)[0] == e);
            assert(entries.update(0, e).skip(1) =~= entries.skip(1));
        }
    } else {
        assert(entries.update(i, e)[0] == entries[0]);
        assert(entries.update(i, e).skip(1) =~= entries.skip(1).update(i - 1, e));
        assert(forall|k: int|
            0 <= k < i - 1 ==> entries.skip(1)[k] == #[trigger] entries[k + 1]);
        lemma_cache_update(entries.skip(1), e, i - 1);
        assert forall|s: Seq<char>, l: int|
            (s != e.selector@ || l != e.html_len as int) implies #[trigger] cache_lookup(
            entries.update(i, e),
            s,
            l,
        ) == cache_lookup(entries, s, l) by {
            assert(entries.update(i, e)[0] == entries[0]);
            assert(entries.update(i, e).skip(1) =~= entries.skip(1).update(i - 1, e));
            assert(cache_lookup(entries.skip(1).update(i - 1, e), s, l) == cache_lookup(
                entries.skip(1),
                s,
                l,
            ));
        }
    }
}

} // verus!
