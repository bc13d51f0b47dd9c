//! Semantic field resolver: given a target URL and a logical field name,
//! produces an ordered, never-empty list of candidate CSS selectors, using
//! static site mappings, a semantic synonym table, and a cache of
//! dynamically discovered forms.

use vstd::prelude::*;
use vstd::pervasive::VecAdditionalExecFns;
use crate::text::{
    has_substring, lower, str_contains, str_eq, to_lowercase, chars_of, string_from_chars,
    clone_string_vec,
};

verus! {

/// The views of a sequence of strings.
pub open spec fn string_views(v: Seq<String>) -> Seq<Seq<char>> {
    v.map_values(|s: String| s@)
}

/// One field of a site mapping: its candidate selectors and metadata.
pub struct FieldDefinition {
    pub selectors: Vec<String>,
    pub field_type: String,
    pub required: bool,
    pub profile_field: Option<String>,
    pub sample_values: Option<Vec<String>>,
    pub options: Option<Vec<String>>,
}

/// A named field inside one site mapping.
pub struct FieldEntry {
    pub name: String,
    pub def: FieldDefinition,
}

/// A static per-site mapping document.
pub struct EnhancedFieldMapping {
    pub id: String,
    pub url: String,
    pub site_name: String,
    pub form_type: String,
    pub fields: Vec<FieldEntry>,
    pub success_rate: u8,
    pub last_tested: String,
}

/// One field discovered dynamically on a live page.
pub struct DiscoveredFormField {
    pub name: String,
    pub label: String,
    pub field_type: String,
    pub selectors: Vec<String>,
    pub required: bool,
    pub semantic_type: Option<String>,
    pub placeholder: Option<String>,
    pub options: Option<Vec<String>>,
}

/// A form discovered dynamically on a live page.
pub struct DiscoveredForm {
    pub url: String,
    pub form_id: Option<String>,
    pub form_action: Option<String>,
    pub form_method: String,
    pub fields: Vec<DiscoveredFormField>,
    pub submit_button: Option<String>,
}

/// A cached discovery result, keyed by the page URL.
pub struct DiscoveredFormEntry {
    pub url: String,
    pub form: DiscoveredForm,
}

/// A usable field definition carries at least one selector.
pub open spec fn wf_field_def(d: FieldDefinition) -> bool {
    d.selectors@.len() > 0
}

/// A well-formed mapping: unique field names, each with at least one
/// selector.
pub open spec fn wf_mapping(m: EnhancedFieldMapping) -> bool {
    &&& forall|i: int| 0 <= i < m.fields@.len() ==> wf_field_def(#[trigger] m.fields@[i].def)
    &&& forall|i: int, j: int|
        0 <= i < j < m.fields@.len() ==> (#[trigger] m.fields@[i].name)@ != (
        #[trigger] m.fields@[j].name)@
}

// ---------------------------------------------------------------------------
// Domains
// ---------------------------------------------------------------------------
/// The host component that the `url` crate reads out of a URL string.  The
/// host is a function of the string alone.
pub uninterp spec fn host_of(url: Seq<char>) -> Option<Seq<char>>;

/// Relies on `url::Url::parse` and `url::Url::host_str`: the host component
/// of the URL when the string parses and has one, `None` otherwise.
#[verifier::external_body]
fn url_host(url: &str) -> (r: Option<String>)
    ensures
        match r {
            Some(h) => host_of(url@) == Some(h@),
            None => host_of(url@) is None,
        },
{
    match url::Url::parse(url) {
        Ok(u) => u.host_str().map(|h| h.to_string()),
        Err(_) => None,
    }
}

/// The first position at or after `from` holding `c`, or the length of `s`.
pub open spec fn char_index_from(s: Seq<char>, c: char, from: int) -> int
    decreases s.len() - from,
{
    if from < 0 || from >= s.len() {
        s.len() as int
    } else if s[from] == c {
        from
    } else {
        char_index_from(s, c, from + 1)
    }
}

fn find_char_from(v: &Vec<char>, c: char, from: usize) -> (r: usize)
    requires
        from <= v@.len(),
    ensures
        r == char_index_from(v@, c, from as int),
        from <= r <= v@.len(),
        r < v@.len() ==> v@[r as int] == c,
{
    let n = v.len();
    let mut i: usize = from;
    while i < n
        invariant
            from <= i <= n,
            n == v@.len(),
            char_index_from(v@, c, from as int) == char_index_from(v@, c, i as int),
        decreases n - i,
    {
        if v[i] == c {
            return i;
        }
        i = i + 1;
    }
    n
}

/// The third `/`-separated segment of a URL, or the whole string when it has
/// no such segment; the fallback parse used when the URL does not carry a
/// readable host.
pub open spec fn fallback_domain(url: Seq<char>) -> Seq<char> {
    let i1 = char_index_from(url, '/', 0);
    let i2 = char_index_from(url, '/', i1 + 1);
    let i3 = char_index_from(url, '/', i2 + 1);
    if i1 == url.len() || i2 == url.len() {
        url
    } else {
        url.subrange(i2 + 1, i3)
    }
}

/// The domain a mapping URL is matched by: its host when one can be read,
/// else the fallback segment parse.
pub open spec fn domain_of(url: Seq<char>) -> Seq<char> {
    match host_of(url) {
        Some(h) => h,
        None => fallback_domain(url),
    }
}

/// The domain of `url`, for substring matching against page URLs.
pub fn extract_domain(url: &str) -> (r: String)
    ensures
        r@ == domain_of(url@),
{
    match url_host(url) {
        Some(h) => h,
        None => {
            let v = chars_of(url);
            let n = v.len();
            let i1 = find_char_from(&v, '/', 0);
            if i1 == n {
                return string_from_chars(&v);
            }
            let i2 = find_char_from(&v, '/', i1 + 1);
            if i2 == n {
                return string_from_chars(&v);
            }
            let i3 = find_char_from(&v, '/', i2 + 1);
            let mut seg: Vec<char> = Vec::new();
            let mut k: usize = i2 + 1;
            while k < i3
                invariant
                    i2 + 1 <= k <= i3 <= v@.len(),
                    seg@ == v@.subrange(i2 + 1, k as int),
                decreases i3 - k,
            {
                seg.push(v[k]);
                k = k + 1;
                proof {
                    assert(seg@ =~= v@.subrange(i2 + 1, k as int));
                }
            }
            string_from_chars(&seg)
        },
    }
}

// ---------------------------------------------------------------------------
// Mapping lookup by URL
// ---------------------------------------------------------------------------
/// The first mapping whose URL equals `url`.
pub open spec fn exact_mapping(ms: Seq<EnhancedFieldMapping>, url: Seq<char>) -> Option<
    EnhancedFieldMapping,
>
    decreases ms.len(),
{
    if ms.len() == 0 {
        None
    } else if ms[0].url@ == url {
        Some(ms[0])
    } else {
        exact_mapping(ms.skip(1), url)
    }
}

/// The first mapping whose domain occurs inside `url`.
pub open spec fn domain_mapping(ms: Seq<EnhancedFieldMapping>, url: Seq<char>) -> Option<
    EnhancedFieldMapping,
>
    decreases ms.len(),
{
    if ms.len() == 0 {
        None
    } else if has_substring(url, domain_of(ms[0].url@)) {
        Some(ms[0])
    } else {
        domain_mapping(ms.skip(1), url)
    }
}

/// The mapping that governs `url`: an exact URL match first, else the first
/// mapping whose domain is contained in `url`.
pub open spec fn mapping_for_url_spec(ms: Seq<EnhancedFieldMapping>, url: Seq<char>) -> Option<
    EnhancedFieldMapping,
> {
    match exact_mapping(ms, url) {
        Some(m) => Some(m),
        None => domain_mapping(ms, url),
    }
}

// ---------------------------------------------------------------------------
// Field lookup inside one mapping
// ---------------------------------------------------------------------------
/// The first field whose declared profile field equals `name`.
pub open spec fn profile_match(fields: Seq<FieldEntry>, name: Seq<char>) -> Option<FieldDefinition>
    decreases fields.len(),
{
    if fields.len() == 0 {
        None
    } else if match fields[0].def.profile_field {
        Some(p) => p@ == name,
        None => false,
    } {
        Some(fields[0].def)
    } else {
        profile_match(fields.skip(1), name)
    }
}

/// The first field whose key equals `name`.
pub open spec fn key_match(fields: Seq<FieldEntry>, name: Seq<char>) -> Option<FieldDefinition>
    decreases fields.len(),
{
    if fields.len() == 0 {
        None
    } else if fields[0].name@ == name {
        Some(fields[0].def)
    } else {
        key_match(fields.skip(1), name)
    }
}

// ---------------------------------------------------------------------------
// Semantic synonym table
// ---------------------------------------------------------------------------
/// How many semantic rules the synonym table holds.
pub const SEMANTIC_RULE_COUNT: usize = 12;

/// The canonical semantic root of rule `i`.
pub open spec fn semantic_rule_root(i: int) -> Seq<char> {
    if i == 0 {
        "firstname"@
    } else if i == 1 {
        "lastname"@
    } else if i == 2 {
        "fullname"@
    } else if i == 3 {
        "email"@
    } else if i == 4 {
        "phone"@
    } else if i == 5 {
        "address"@
    } else if i == 6 {
        "city"@
    } else if i == 7 {
        "state"@
    } else if i == 8 {
        "zip"@
    } else if i == 9 {
        "company"@
    } else if i == 10 {
        "password"@
    } else {
        "username"@
    }
}

/// The mapping field names that count as rule `i`'s synonyms, in the order
/// they are scanned.
pub open spec fn semantic_rule_synonyms(i: int) -> Seq<Seq<char>> {
    if i == 0 {
        seq!["firstName"@, "first_name"@, "fname"@, "given_name"@]
    } else if i == 1 {
        seq!["lastName"@, "last_name"@, "lname"@, "family_name"@, "surname"@]
    } else if i == 2 {
        seq!["fullName"@, "full_name"@, "name"@, "display_name"@]
    } else if i == 3 {
        seq!["email"@, "emailAddress"@, "email_address"@, "mail"@]
    } else if i == 4 {
        seq!["phoneNumber"@, "phone_number"@, "tel"@, "telephone"@, "mobile"@]
    } else if i == 5 {
        seq!["address"@, "address1"@, "street"@, "street_address"@]
    } else if i == 6 {
        seq!["city"@, "locality"@, "town"@]
    } else if i == 7 {
        seq!["state"@, "region"@, "province"@]
    } else if i == 8 {
        seq!["zip"@, "postal_code"@, "postcode"@, "zipcode"@]
    } else if i == 9 {
        seq!["company"@, "organization"@, "employer"@]
    } else if i == 10 {
        seq!["password"@, "pwd"@, "pass"@]
    } else {
        seq!["username"@, "user_name"@, "login"@, "user_id"@]
    }
}

fn semantic_rule_root_at(i: usize) -> (r: &'static str)
    requires
        i < SEMANTIC_RULE_COUNT,
    ensures
        r@ == semantic_rule_root(i as int),
{
    if i == 0 {
        "firstname"
    } else if i == 1 {
        "lastname"
    } else if i == 2 {
        "fullname"
    } else if i == 3 {
        "email"
    } else if i == 4 {
        "phone"
    } else if i == 5 {
        "address"
    } else if i == 6 {
        "city"
    } else if i == 7 {
        "state"
    } else if i == 8 {
        "zip"
    } else if i == 9 {
        "company"
    } else if i == 10 {
        "password"
    } else {
        "username"
    }
}

/// The views of a sequence of string slices.
pub open spec fn str_views(v: Seq<&str>) -> Seq<Seq<char>> {
    v.map_values(|s: &str| s@)
}

fn semantic_rule_synonyms_at(i: usize) -> (r: Vec<&'static str>)
    requires
        i < SEMANTIC_RULE_COUNT,
    ensures
        str_views(r@) == semantic_rule_synonyms(i as int),
{
    let mut r: Vec<&'static str> = Vec::new();
    if i == 0 {
        r.push("firstName");
        r.push("first_name");
        r.push("fname");
        r.push("given_name");
    } else if i == 1 {
        r.push("lastName");
        r.push("last_name");
        r.push("lname");
        r.push("family_name");
        r.push("surname");
    } else if i == 2 {
        r.push("fullName");
        r.push("full_name");
        r.push("name");
        r.push("display_name");
    } else if i == 3 {
        r.push("email");
        r.push("emailAddress");
        r.push("email_address");
        r.push("mail");
    } else if i == 4 {
        r.push("phoneNumber");
        r.push("phone_number");
        r.push("tel");
        r.push("telephone");
        r.push("mobile");
    } else if i == 5 {
        r.push("address");
        r.push("address1");
        r.push("street");
        r.push("street_address");
    } else if i == 6 {
        r.push("city");
        r.push("locality");
        r.push("town");
    } else if i == 7 {
        r.push("state");
        r.push("region");
        r.push("province");
    } else if i == 8 {
        r.push("zip");
        r.push("postal_code");
        r.push("postcode");
        r.push("zipcode");
    } else if i == 9 {
        r.push("company");
        r.push("organization");
        r.push("employer");
    } else if i == 10 {
        r.push("password");
        r.push("pwd");
        r.push("pass");
    } else {
        r.push("username");
        r.push("user_name");
        r.push("login");
        r.push("user_id");
    }
    proof {
        assert(str_views(r@) =~= semantic_rule_synonyms(i as int));
    }
    r
}

/// The first synonym in `syns` that is a field key of `fields`.
pub open spec fn synonym_lookup(fields: Seq<FieldEntry>, syns: Seq<Seq<char>>) -> Option<
    FieldDefinition,
>
    decreases syns.len(),
{
    if syns.len() == 0 {
        None
    } else {
        match key_match(fields, syns[0]) {
            Some(d) => Some(d),
            None => synonym_lookup(fields, syns.skip(1)),
        }
    }
}

/// The semantic synonym scan, starting at rule `i`: the first rule whose
/// root occurs in the lowered field name and whose synonym list names a
/// mapping field.
pub open spec fn semantic_match_from(
    fields: Seq<FieldEntry>,
    lower_name: Seq<char>,
    i: int,
) -> Option<FieldDefinition>
    decreases SEMANTIC_RULE_COUNT - i,
{
    if i < 0 || i >= SEMANTIC_RULE_COUNT {
        None
    } else {
        let hit = if has_substring(lower_name, semantic_rule_root(i)) {
            synonym_lookup(fields, semantic_rule_synonyms(i))
        } else {
            None
        };
        match hit {
            Some(d) => Some(d),
            None => semantic_match_from(fields, lower_name, i + 1),
        }
    }
}

/// The field the semantic synonym table resolves `name` to, if any.
pub open spec fn semantic_match_spec(fields: Seq<FieldEntry>, name: Seq<char>) -> Option<
    FieldDefinition,
> {
    semantic_match_from(fields, lower(name), 0)
}

// ---------------------------------------------------------------------------
// Discovered-form selectors
// ---------------------------------------------------------------------------
/// The first discovered field whose semantic tag, lowered, equals the
/// lowered profile field name.
pub open spec fn discovered_semantic_match(
    fields: Seq<DiscoveredFormField>,
    lower_name: Seq<char>,
) -> Option<DiscoveredFormField>
    decreases fields.len(),
{
    if fields.len() == 0 {
        None
    } else if match fields[0].semantic_type {
        Some(t) => lower(t@) == lower_name,
        None => false,
    } {
        Some(fields[0])
    } else {
        discovered_semantic_match(fields.skip(1), lower_name)
    }
}

/// The first discovered field whose name, lowered, equals the lowered
/// profile field name.
pub open spec fn discovered_name_match(
    fields: Seq<DiscoveredFormField>,
    lower_name: Seq<char>,
) -> Option<DiscoveredFormField>
    decreases fields.len(),
{
    if fields.len() == 0 {
        None
    } else if lower(fields[0].name@) == lower_name {
        Some(fields[0])
    } else {
        discovered_name_match(fields.skip(1), lower_name)
    }
}

/// The first discovered field whose label, lowered, contains the lowered
/// profile field name.
pub open spec fn discovered_label_match(
    fields: Seq<DiscoveredFormField>,
    lower_name: Seq<char>,
) -> Option<DiscoveredFormField>
    decreases fields.len(),
{
    if fields.len() == 0 {
        None
    } else if has_substring(lower(fields[0].label@), lower_name) {
        Some(fields[0])
    } else {
        discovered_label_match(fields.skip(1), lower_name)
    }
}

/// The selectors a discovered form offers for a profile field: semantic tag
/// match first, then field name, then label containment; empty when nothing
/// matches.
pub open spec fn smart_selectors_spec(
    fields: Seq<DiscoveredFormField>,
    name: Seq<char>,
) -> Seq<Seq<char>> {
    let ln = lower(name);
    match discovered_semantic_match(fields, ln) {
        Some(f) => string_views(f.selectors@),
        None => match discovered_name_match(fields, ln) {
            Some(f) => string_views(f.selectors@),
            None => match discovered_label_match(fields, ln) {
                Some(f) => string_views(f.selectors@),
                None => Seq::empty(),
            },
        },
    }
}

// ---------------------------------------------------------------------------
// Fallback selectors
// ---------------------------------------------------------------------------
/// The four generic attribute-based selectors for a field name, the
/// resolver's last resort.
pub open spec fn fallback_selector_views(field: Seq<char>) -> Seq<Seq<char>> {
    seq![
        "input[name='"@ + field + "']"@,
        "input[id='"@ + field + "']"@,
        "select[name='"@ + field + "']"@,
        "textarea[name='"@ + field + "']"@,
    ]
}

/// `prefix`, then `field`, then `suffix`, as one string.
pub fn attr_selector(prefix: &str, field: &str, suffix: &str) -> (r: String)
    ensures
        r@ == prefix@ + field@ + suffix@,
{
    let mut s = String::from_str(prefix);
    s.append(field);
    s.append(suffix);
    s
}

/// The generic fallback selectors for `profile_field`.
pub fn fallback_selectors(profile_field: &str) -> (r: Vec<String>)
    ensures
        string_views(r@) == fallback_selector_views(profile_field@),
        r@.len() == 4,
{
    let mut r: Vec<String> = Vec::new();
    r.push(attr_selector("input[name='", profile_field, "']"));
    r.push(attr_selector("input[id='", profile_field, "']"));
    r.push(attr_selector("select[name='", profile_field, "']"));
    r.push(attr_selector("textarea[name='", profile_field, "']"));
    proof {
        assert(string_views(r@) =~= fallback_selector_views(profile_field@));
    }
    r
}

// ---------------------------------------------------------------------------
// The service
// ---------------------------------------------------------------------------
/// The resolver's state: loaded site mappings, the discovered-form cache,
/// and whether dynamic discovery is switched on.
pub struct FieldMappingService {
    pub mappings: Vec<EnhancedFieldMapping>,
    pub discovered_forms: Vec<DiscoveredFormEntry>,
    pub discovery_enabled: bool,
}

impl FieldMappingService {
    /// Every loaded mapping is well formed; mapping URLs and cached
    /// discovery URLs are unique.
    pub open spec fn wf(&self) -> bool {
        &&& forall|i: int|
            0 <= i < self.mappings@.len() ==> wf_mapping(#[trigger] self.mappings@[i])
        &&& forall|i: int, j: int|
            0 <= i < j < self.mappings@.len() ==> (#[trigger] self.mappings@[i].url)@ != (
            #[trigger] self.mappings@[j].url)@
        &&& forall|i: int, j: int|
            0 <= i < j < self.discovered_forms@.len() ==> (
            #[trigger] self.discovered_forms@[i].url)@ != (
            #[trigger] self.discovered_forms@[j].url)@
    }

    /// A fresh service with no mappings, an empty discovery cache, and
    /// discovery switched off.
    pub fn new() -> (r: Self)
        ensures
            r.wf(),
            r.mappings@.len() == 0,
            r.discovered_forms@.len() == 0,
            !r.discovery_enabled,
    {
        FieldMappingService { mappings: Vec::new(), discovered_forms: Vec::new(), discovery_enabled: false }
    }

    /// Switches dynamic discovery on or off.
    pub fn enable_discovery(&mut self, enabled: bool)
        ensures
            *final(self) == (FieldMappingService { discovery_enabled: enabled, ..*old(self) }),
    {
        self.discovery_enabled = enabled;
    }

    /// Whether dynamic discovery is available.
    pub fn is_dynamic_discovery_enabled(&self) -> (r: bool)
        ensures
            r == self.discovery_enabled,
    {
        self.discovery_enabled
    }

    /// All loaded mappings.
    pub fn get_all_mappings(&self) -> (r: &Vec<EnhancedFieldMapping>)
        ensures
            r == &self.mappings,
    {
        &self.mappings
    }
}

// ---------------------------------------------------------------------------
// First-match searches
// ---------------------------------------------------------------------------
fn find_exact_mapping(ms: &Vec<EnhancedFieldMapping>, url: &str) -> (r: Option<usize>)
    ensures
        match r {
            Some(i) => i < ms@.len() && exact_mapping(ms@, url@) == Some(ms@[i as int]),
            None => exact_mapping(ms@, url@) is None,
        },
{
    let mut i: usize = 0;
    proof {
        assert(ms@.skip(0) =~= ms@);
    }
    while i < ms.len()
        invariant
            i <= ms@.len(),
            exact_mapping(ms@, url@) == exact_mapping(ms@.skip(i as int), url@),
        decreases ms@.len() - i,
    {
        proof {
            assert(ms@.skip(i as int)[0] == ms@[i as int]);
        }
        if str_eq(ms[i].url.as_str(), url) {
            return Some(i);
        }
        proof {
            assert(ms@.skip(i as int).skip(1) =~= ms@.skip(i + 1));
        }
        i = i + 1;
    }
    None
}

/// Whether the domain of `mapping_url` occurs inside `url`.
fn url_contains_domain(url: &str, mapping_url: &str) -> (r: bool)
    ensures
        r == has_substring(url@, domain_of(mapping_url@)),
{
    let d = extract_domain(mapping_url);
    str_contains(url, d.as_str())
}

fn find_domain_mapping(ms: &Vec<EnhancedFieldMapping>, url: &str) -> (r: Option<usize>)
    ensures
        match r {
            Some(i) => i < ms@.len() && domain_mapping(ms@, url@) == Some(ms@[i as int]),
            None => domain_mapping(ms@, url@) is None,
        },
{
    let mut i: usize = 0;
    proof {
        assert(ms@.skip(0) =~= ms@);
    }
    while i < ms.len()
        invariant
            i <= ms@.len(),
            domain_mapping(ms@, url@) == domain_mapping(ms@.skip(i as int), url@),
        decreases ms@.len() - i,
    {
        proof {
            assert(ms@.skip(i as int)[0] == ms@[i as int]);
        }
        if url_contains_domain(url, ms[i].url.as_str()) {
            return Some(i);
        }
        proof {
            assert(ms@.skip(i as int).skip(1) =~= ms@.skip(i + 1));
        }
        i = i + 1;
    }
    None
}

fn find_profile_match(fields: &Vec<FieldEntry>, name: &str) -> (r: Option<usize>)
    ensures
        match r {
            Some(i) => i < fields@.len() && profile_match(fields@, name@) == Some(
                fields@[i as int].def,
            ),
            None => profile_match(fields@, name@) is None,
        },
{
    let mut i: usize = 0;
    proof {
        assert(fields@.skip(0) =~= fields@);
    }
    while i < fields.len()
        invariant
            i <= fields@.len(),
            profile_match(fields@, name@) == profile_match(fields@.skip(i as int), name@),
        decreases fields@.len() - i,
    {
        proof {
            assert(fields@.skip(i as int)[0] == fields@[i as int]);
        }
        let hit = match &fields[i].def.profile_field {
            Some(p) => str_eq(p.as_str(), name),
            None => false,
        };
        if hit {
            return Some(i);
        }
        proof {
            assert(fields@.skip(i as int).skip(1) =~= fields@.skip(i + 1));
        }
        i = i + 1;
    }
    None
}

fn find_key_match(fields: &Vec<FieldEntry>, name: &str) -> (r: Option<usize>)
    ensures
        match r {
            Some(i) => i < fields@.len() && key_match(fields@, name@) == Some(
                fields@[i as int].def,
            ),
            None => key_match(fields@, name@) is None,
        },
{
    let mut i: usize = 0;
    proof {
        assert(fields@.skip(0) =~= fields@);
    }
    while i < fields.len()
        invariant
            i <= fields@.len(),
            key_match(fields@, name@) == key_match(fields@.skip(i as int), name@),
        decreases fields@.len() - i,
    {
        proof {
            assert(fields@.skip(i as int)[0] == fields@[i as int]);
        }
        if str_eq(fields[i].name.as_str(), name) {
            return Some(i);
        }
        proof {
            assert(fields@.skip(i as int).skip(1) =~= fields@.skip(i + 1));
        }
        i = i + 1;
    }
    None
}

fn find_form(forms: &Vec<DiscoveredFormEntry>, url: &str) -> (r: Option<usize>)
    ensures
        match r {
            Some(i) => i < forms@.len() && form_for_url(forms@, url@) == Some(
                forms@[i as int].form,
            ),
            None => form_for_url(forms@, url@) is None,
        },
{
    let mut i: usize = 0;
    proof {
        assert(forms@.skip(0) =~= forms@);
    }
    while i < forms.len()
        invariant
            i <= forms@.len(),
            form_for_url(forms@, url@) == form_for_url(forms@.skip(i as int), url@),
        decreases forms@.len() - i,
    {
        proof {
            assert(forms@.skip(i as int)[0] == forms@[i as int]);
        }
        if str_eq(forms[i].url.as_str(), url) {
            return Some(i);
        }
        proof {
            assert(forms@.skip(i as int).skip(1) =~= forms@.skip(i + 1));
        }
        i = i + 1;
    }
    None
}

/// The discovery-cache entry for `url`, if one is cached.
pub open spec fn form_for_url(forms: Seq<DiscoveredFormEntry>, url: Seq<char>) -> Option<
    DiscoveredForm,
>
    decreases forms.len(),
{
    if forms.len() == 0 {
        None
    } else if forms[0].url@ == url {
        Some(forms[0].form)
    } else {
        form_for_url(forms.skip(1), url)
    }
}

/// The selectors the discovery cache offers for `url` and `field`, when a
/// form is cached and offers at least one.
pub open spec fn dynamic_selectors_spec(
    forms: Seq<DiscoveredFormEntry>,
    url: Seq<char>,
    field: Seq<char>,
) -> Option<Seq<Seq<char>>> {
    match form_for_url(forms, url) {
        Some(f) => if smart_selectors_spec(f.fields@, field).len() > 0 {
            Some(smart_selectors_spec(f.fields@, field))
        } else {
            None
        },
        None => None,
    }
}

// ---------------------------------------------------------------------------
// Membership and well-formedness lemmas
// ---------------------------------------------------------------------------
proof fn lemma_exact_mapping_mem(ms: Seq<EnhancedFieldMapping>, url: Seq<char>, m: EnhancedFieldMapping)
    requires
        exact_mapping(ms, url) == Some(m),
    ensures
        exists|i: int| 0 <= i < ms.len() && ms[i] == m,
    decreases ms.len(),
{
    if ms.len() > 0 {
        if ms[0].url@ == url {
            assert(ms[0] == m);
        } else {
            lemma_exact_mapping_mem(ms.skip(1), url, m);
            let i = choose|i: int| 0 <= i < ms.skip(1).len() && ms.skip(1)[i] == m;
            assert(ms[i + 1] == m);
        }
    }
}

proof fn lemma_domain_mapping_mem(ms: Seq<EnhancedFieldMapping>, url: Seq<char>, m: EnhancedFieldMapping)
    requires
        domain_mapping(ms, url) == Some(m),
    ensures
        exists|i: int| 0 <= i < ms.len() && ms[i] == m,
    decreases ms.len(),
{
    if ms.len() > 0 {
        if has_substring(url, domain_of(ms[0].url@)) {
            assert(ms[0] == m);
        } else {
            lemma_domain_mapping_mem(ms.skip(1), url, m);
            let i = choose|i: int| 0 <= i < ms.skip(1).len() && ms.skip(1)[i] == m;
            assert(ms[i + 1] == m);
        }
    }
}

/// A mapping found for a URL is one of the loaded mappings, so a well-formed
/// service only ever resolves through well-formed mappings.
proof fn lemma_mapping_for_url_wf(svc: FieldMappingService, url: Seq<char>, m: EnhancedFieldMapping)
    requires
        svc.wf(),
        mapping_for_url_spec(svc.mappings@, url) == Some(m),
    ensures
        wf_mapping(m),
{
    if exact_mapping(svc.mappings@, url) is Some {
        lemma_exact_mapping_mem(svc.mappings@, url, m);
    } else {
        lemma_domain_mapping_mem(svc.mappings@, url, m);
    }
}

proof fn lemma_profile_match_wf(fields: Seq<FieldEntry>, name: Seq<char>, d: FieldDefinition)
    requires
        forall|i: int| 0 <= i < fields.len() ==> wf_field_def(#[trigger] fields[i].def),
        profile_match(fields, name) == Some(d),
    ensures
        wf_field_def(d),
    decreases fields.len(),
{
    if fields.len() > 0 {
        if match fields[0].def.profile_field {
            Some(p) => p@ == name,
            None => false,
        } {
        } else {
            assert(forall|i: int|
                0 <= i < fields.skip(1).len() ==> wf_field_def(#[trigger] fields.skip(1)[i].def));
            lemma_profile_match_wf(fields.skip(1), name, d);
        }
    }
}

proof fn lemma_key_match_wf(fields: Seq<FieldEntry>, name: Seq<char>, d: FieldDefinition)
    requires
        forall|i: int| 0 <= i < fields.len() ==> wf_field_def(#[trigger] fields[i].def),
        key_match(fields, name) == Some(d),
    ensures
        wf_field_def(d),
    decreases fields.len(),
{
    if fields.len() > 0 {
        if fields[0].name@ == name {
        } else {
            assert(forall|i: int|
                0 <= i < fields.skip(1).len() ==> wf_field_def(#[trigger] fields.skip(1)[i].def));
            lemma_key_match_wf(fields.skip(1), name, d);
        }
    }
}

proof fn lemma_synonym_lookup_wf(fields: Seq<FieldEntry>, syns: Seq<Seq<char>>, d: FieldDefinition)
    requires
        forall|i: int| 0 <= i < fields.len() ==> wf_field_def(#[trigger] fields[i].def),
        synonym_lookup(fields, syns) == Some(d),
    ensures
        wf_field_def(d),
    decreases syns.len(),
{
    if syns.len() > 0 {
        match key_match(fields, syns[0]) {
            Some(d0) => {
                lemma_key_match_wf(fields, syns[0], d0);
            },
            None => {
                lemma_synonym_lookup_wf(fields, syns.skip(1), d);
            },
        }
    }
}

proof fn lemma_semantic_match_wf(fields: Seq<FieldEntry>, lower_name: Seq<char>, i: int, d: FieldDefinition)
    requires
        forall|k: int| 0 <= k < fields.len() ==> wf_field_def(#[trigger] fields[k].def),
        semantic_match_from(fields, lower_name, i) == Some(d),
    ensures
        wf_field_def(d),
    decreases SEMANTIC_RULE_COUNT - i,
{
    if 0 <= i < SEMANTIC_RULE_COUNT {
        let hit = if has_substring(lower_name, semantic_rule_root(i)) {
            synonym_lookup(fields, semantic_rule_synonyms(i))
        } else {
            Option::<FieldDefinition>::None
        };
        match hit {
            Some(d0) => {
                lemma_synonym_lookup_wf(fields, semantic_rule_synonyms(i), d0);
            },
            None => {
                lemma_semantic_match_wf(fields, lower_name, i + 1, d);
            },
        }
    }
}

// ---------------------------------------------------------------------------
// The resolver proper
// ---------------------------------------------------------------------------
impl FieldMappingService {
    /// The mapping that governs `url`: an exact URL match first, else the
    /// first mapping whose domain is contained in `url`.
    pub fn get_mapping_for_url(&self, url: &str) -> (r: Option<&EnhancedFieldMapping>)
        ensures
            match r {
                Some(m) => mapping_for_url_spec(self.mappings@, url@) == Some(*m),
                None => mapping_for_url_spec(self.mappings@, url@) is None,
            },
    {
        match find_exact_mapping(&self.mappings, url) {
            Some(i) => Some(&self.mappings[i]),
            None => match find_domain_mapping(&self.mappings, url) {
                Some(i) => Some(&self.mappings[i]),
                None => None,
            },
        }
    }

    /// The selectors the semantic synonym table resolves `profile_field` to
    /// inside `mapping`; empty when no rule matches.
    pub fn find_semantic_match(&self, mapping: &EnhancedFieldMapping, profile_field: &str) -> (r:
        Vec<String>)
        ensures
            match semantic_match_spec(mapping.fields@, profile_field@) {
                Some(d) => r@ == d.selectors@,
                None => r@.len() == 0,
            },
    {
        let lowered = to_lowercase(profile_field);
        let mut i: usize = 0;
        while i < SEMANTIC_RULE_COUNT
            invariant
                i <= SEMANTIC_RULE_COUNT,
                lowered@ == lower(profile_field@),
                semantic_match_from(mapping.fields@, lower(profile_field@), 0)
                    == semantic_match_from(mapping.fields@, lower(profile_field@), i as int),
            decreases SEMANTIC_RULE_COUNT - i,
        {
            let root = semantic_rule_root_at(i);
            if str_contains(lowered.as_str(), root) {
                let syns = semantic_rule_synonyms_at(i);
                let ghost syn_seq = semantic_rule_synonyms(i as int);
                let mut j: usize = 0;
                proof {
                    assert(syn_seq.skip(0) =~= syn_seq);
                }
                while j < syns.len()
                    invariant
                        j <= syns@.len(),
                        i < SEMANTIC_RULE_COUNT,
                        lowered@ == lower(profile_field@),
                        has_substring(lower(profile_field@), semantic_rule_root(i as int)),
                        str_views(syns@) == syn_seq,
                        syn_seq == semantic_rule_synonyms(i as int),
                        semantic_match_from(mapping.fields@, lower(profile_field@), 0)
                            == semantic_match_from(mapping.fields@, lower(profile_field@), i as int),
                        synonym_lookup(mapping.fields@, syn_seq) == synonym_lookup(
                            mapping.fields@,
                            syn_seq.skip(j as int),
                        ),
                    decreases syns@.len() - j,
                {
                    proof {
                        assert(syn_seq.skip(j as int)[0] == syn_seq[j as int]);
                        assert(syn_seq[j as int] == syns@[j as int]@);
                    }
                    match find_key_match(&mapping.fields, syns[j]) {
                        Some(k) => {
                            let r = clone_string_vec(&mapping.fields[k].def.selectors);
                            proof {
                                assert(synonym_lookup(mapping.fields@, syn_seq.skip(j as int))
                                    == Some(mapping.fields@[k as int].def));
                                assert(semantic_match_from(
                                    mapping.fields@,
                                    lower(profile_field@),
                                    i as int,
                                ) == Some(mapping.fields@[k as int].def));
                            }
                            return r;
                        },
                        None => {},
                    }
                    proof {
                        assert(syn_seq.skip(j as int).skip(1) =~= syn_seq.skip(j + 1));
                    }
                    j = j + 1;
                }
                proof {
                    assert(syn_seq.skip(j as int).len() == 0);
                    assert(synonym_lookup(mapping.fields@, syn_seq) is None);
                }
            }
            proof {
                assert(semantic_match_from(mapping.fields@, lower(profile_field@), i as int)
                    == semantic_match_from(mapping.fields@, lower(profile_field@), i + 1));
            }
            i = i + 1;
        }
        proof {
            assert(semantic_match_from(mapping.fields@, lower(profile_field@), i as int) is None);
        }
        Vec::new()
    }

    /// The selectors the discovery cache offers for `url` and
    /// `profile_field`, when a cached form offers at least one.
    pub fn get_dynamic_selectors(&self, url: &str, profile_field: &str) -> (r: Option<Vec<String>>)
        ensures
            match r {
                Some(v) => dynamic_selectors_spec(self.discovered_forms@, url@, profile_field@)
                    == Some(string_views(v@)) && v@.len() > 0,
                None => dynamic_selectors_spec(self.discovered_forms@, url@, profile_field@)
                    is None,
            },
    {
        match find_form(&self.discovered_forms, url) {
            Some(i) => {
                let sels = get_smart_selectors(&self.discovered_forms[i].form, profile_field);
                if sels.len() > 0 {
                    Some(sels)
                } else {
                    None
                }
            },
            None => None,
        }
    }

    /// The ordered candidate selectors for `profile_field` on `url`: static
    /// mapping first (declared profile field, then field key, then semantic
    /// synonyms), then the discovery cache, then the generic fallbacks.
    /// The list is never empty.
    pub fn get_field_selectors(&self, url: &str, profile_field: &str) -> (r: Vec<String>)
        requires
            self.wf(),
        ensures
            string_views(r@) == resolve_spec(*self, url@, profile_field@),
            r@.len() > 0,
    {
        let mopt = self.get_mapping_for_url(url);
        match mopt {
            Some(m) => {
                proof {
                    lemma_mapping_for_url_wf(*self, url@, *m);
                }
                match find_profile_match(&m.fields, profile_field) {
                    Some(i) => {
                        proof {
                            lemma_profile_match_wf(
                                m.fields@,
                                profile_field@,
                                m.fields@[i as int].def,
                            );
                        }
                        return clone_string_vec(&m.fields[i].def.selectors);
                    },
                    None => {},
                }
                match find_key_match(&m.fields, profile_field) {
                    Some(i) => {
                        proof {
                            lemma_key_match_wf(m.fields@, profile_field@, m.fields@[i as int].def);
                        }
                        return clone_string_vec(&m.fields[i].def.selectors);
                    },
                    None => {},
                }
                let sem = self.find_semantic_match(m, profile_field);
                proof {
                    if semantic_match_spec(m.fields@, profile_field@) is Some {
                        lemma_semantic_match_wf(
                            m.fields@,
                            lower(profile_field@),
                            0,
                            semantic_match_spec(m.fields@, profile_field@)->0,
                        );
                    }
                }
                if sem.len() > 0 {
                    return sem;
                }
            },
            None => {},
        }
        match self.get_dynamic_selectors(url, profile_field) {
            Some(v) => {
                return v;
            },
            None => {},
        }
        fallback_selectors(profile_field)
    }
}

/// What `get_field_selectors` returns, as a function of the service state:
/// mapping-declared selectors when the mapping path matches, else cached
/// discovery selectors, else the generic fallbacks.
pub open spec fn resolve_spec(
    svc: FieldMappingService,
    url: Seq<char>,
    field: Seq<char>,
) -> Seq<Seq<char>> {
    let from_mapping = match mapping_for_url_spec(svc.mappings@, url) {
        Some(m) => match profile_match(m.fields@, field) {
            Some(d) => Some(string_views(d.selectors@)),
            None => match key_match(m.fields@, field) {
                Some(d) => Some(string_views(d.selectors@)),
                None => match semantic_match_spec(m.fields@, field) {
                    Some(d) => Some(string_views(d.selectors@)),
                    None => None,
                },
            },
        },
        None => None,
    };
    match from_mapping {
        Some(s) => s,
        None => match dynamic_selectors_spec(svc.discovered_forms@, url, field) {
            Some(s) => s,
            None => fallback_selector_views(field),
        },
    }
}

/// The selectors a discovered form offers for a profile field: semantic
/// tag match first, then field name, then label containment.
pub fn get_smart_selectors(form: &DiscoveredForm, profile_field: &str) -> (r: Vec<String>)
    ensures
        string_views(r@) == smart_selectors_spec(form.fields@, profile_field@),
{
    let lowered = to_lowercase(profile_field);
    let fields = &form.fields;
    let mut i: usize = 0;
    proof {
        assert(fields@.skip(0) =~= fields@);
    }
    while i < fields.len()
        invariant
            i <= fields@.len(),
            fields@ == form.fields@,
            lowered@ == lower(profile_field@),
            discovered_semantic_match(fields@, lower(profile_field@)) == discovered_semantic_match(
                fields@.skip(i as int),
                lower(profile_field@),
            ),
        decreases fields@.len() - i,
    {
        proof {
            assert(fields@.skip(i as int)[0] == fields@[i as int]);
        }
        let hit = match &fields[i].semantic_type {
            Some(t) => {
                let tl = to_lowercase(t.as_str());
                str_eq(tl.as_str(), lowered.as_str())
            },
            None => false,
        };
        if hit {
            let r = clone_string_vec(&fields[i].selectors);
            proof {
                assert(discovered_semantic_match(fields@.skip(i as int), lower(profile_field@))
                    == Some(fields@[i as int]));
                assert(string_views(r@) =~= smart_selectors_spec(form.fields@, profile_field@));
            }
            return r;
        }
        proof {
            assert(fields@.skip(i as int).skip(1) =~= fields@.skip(i + 1));
        }
        i = i + 1;
    }
    let mut i: usize = 0;
    proof {
        assert(fields@.skip(0) =~= fields@);
    }
    while i < fields.len()
        invariant
            i <= fields@.len(),
            fields@ == form.fields@,
            lowered@ == lower(profile_field@),
            discovered_semantic_match(fields@, lower(profile_field@)) is None,
            discovered_name_match(fields@, lower(profile_field@)) == discovered_name_match(
                fields@.skip(i as int),
                lower(profile_field@),
            ),
        decreases fields@.len() - i,
    {
        proof {
            assert(fields@.skip(i as int)[0] == fields@[i as int]);
        }
        let nl = to_lowercase(fields[i].name.as_str());
        if str_eq(nl.as_str(), lowered.as_str()) {
            let r = clone_string_vec(&fields[i].selectors);
            proof {
                assert(discovered_name_match(fields@.skip(i as int), lower(profile_field@))
                    == Some(fields@[i as int]));
                assert(string_views(r@) =~= smart_selectors_spec(form.fields@, profile_field@));
            }
            return r;
        }
        proof {
            assert(fields@.skip(i as int).skip(1) =~= fields@.skip(i + 1));
        }
        i = i + 1;
    }
    let mut i: usize = 0;
    proof {
        assert(fields@.skip(0) =~= fields@);
    }
    while i < fields.len()
        invariant
            i <= fields@.len(),
            fields@ == form.fields@,
            lowered@ == lower(profile_field@),
            discovered_semantic_match(fields@, lower(profile_field@)) is None,
            discovered_name_match(fields@, lower(profile_field@)) is None,
            discovered_label_match(fields@, lower(profile_field@)) == discovered_label_match(
                fields@.skip(i as int),
                lower(profile_field@),
            ),
        decreases fields@.len() - i,
    {
        proof {
            assert(fields@.skip(i as int)[0] == fields@[i as int]);
        }
        let ll = to_lowercase(fields[i].label.as_str());
        if str_contains(ll.as_str(), lowered.as_str()) {
            let r = clone_string_vec(&fields[i].selectors);
            proof {
                assert(discovered_label_match(fields@.skip(i as int), lower(profile_field@))
                    == Some(fields@[i as int]));
                assert(string_views(r@) =~= smart_selectors_spec(form.fields@, profile_field@));
            }
            return r;
        }
        proof {
            assert(fields@.skip(i as int).skip(1) =~= fields@.skip(i + 1));
        }
        i = i + 1;
    }
    let r: Vec<String> = Vec::new();
    proof {
        assert(string_views(r@) =~= smart_selectors_spec(form.fields@, profile_field@));
    }
    r
}

// ---------------------------------------------------------------------------
// Loading mappings and caching discoveries
// ---------------------------------------------------------------------------
/// Whether `m` is well formed: every field carries a selector and no field
/// name repeats.
pub fn check_mapping(m: &EnhancedFieldMapping) -> (r: bool)
    ensures
        r == wf_mapping(*m),
{
    let n = m.fields.len();
    let mut i: usize = 0;
    while i < n
        invariant
            i <= n,
            n == m.fields@.len(),
            forall|k: int| 0 <= k < i ==> wf_field_def(#[trigger] m.fields@[k].def),
        decreases n - i,
    {
        if m.fields[i].def.selectors.len() == 0 {
            return false;
        }
        i = i + 1;
    }
    let mut i: usize = 0;
    while i < n
        invariant
            i <= n,
            n == m.fields@.len(),
            forall|k: int| 0 <= k < n ==> wf_field_def(#[trigger] m.fields@[k].def),
            forall|k: int, l: int|
                0 <= k < l < n && k < i ==> (#[trigger] m.fields@[k].name)@ != (
                #[trigger] m.fields@[l].name)@,
        decreases n - i,
    {
        let mut j: usize = i + 1;
        while j < n
            invariant
                i < j <= n || (i + 1 == j && j > n),
                i < n,
                n == m.fields@.len(),
                forall|l: int| i < l < j ==> (#[trigger] m.fields@[l].name)@ != m.fields@[i as int].name@,
            decreases n - j,
        {
            if str_eq(m.fields[i].name.as_str(), m.fields[j].name.as_str()) {
                return false;
            }
            j = j + 1;
        }
        i = i + 1;
    }
    true
}

impl FieldMappingService {
    /// Loads one mapping document.  A malformed mapping (an empty selector
    /// list or a repeated field name) is skipped and `false` returned; a
    /// well-formed one replaces the mapping with the same URL, or is
    /// appended.
    pub fn insert_mapping(&mut self, m: EnhancedFieldMapping) -> (r: bool)
        requires
            old(self).wf(),
        ensures
            final(self).wf(),
            r == wf_mapping(m),
            final(self).discovered_forms == old(self).discovered_forms,
            final(self).discovery_enabled == old(self).discovery_enabled,
            !r ==> final(self).mappings == old(self).mappings,
            r ==> (exists|i: int|
                0 <= i < old(self).mappings@.len() && (#[trigger] old(self).mappings@[i]).url@
                    == m.url@ && final(self).mappings@ == old(self).mappings@.update(i, m)) || (
            final(self).mappings@ == old(self).mappings@.push(m) && forall|i: int|
                0 <= i < old(self).mappings@.len() ==> (#[trigger] old(self).mappings@[i]).url@
                    != m.url@),
    {
        if !check_mapping(&m) {
            return false;
        }
        let n = self.mappings.len();
        let mut i: usize = 0;
        while i < n
            invariant
                i <= n,
                n == self.mappings@.len(),
                self == old(self),
                old(self).wf(),
                wf_mapping(m),
                forall|k: int| 0 <= k < i ==> (#[trigger] self.mappings@[k]).url@ != m.url@,
            decreases n - i,
        {
            if str_eq(self.mappings[i].url.as_str(), m.url.as_str()) {
                let ghost murl = m.url@;
                self.mappings.set(i, m);
                proof {
                    let ms = self.mappings@;
                    let before = old(self).mappings@;
                    assert(forall|k: int| 0 <= k < ms.len() ==> wf_mapping(#[trigger] ms[k]));
                    assert forall|k: int, l: int|
                        0 <= k < l < ms.len() implies (#[trigger] ms[k]).url@ != (
                    #[trigger] ms[l]).url@ by {
                        assert(before[k].url@ != before[l].url@);
                        assert(before[i as int].url@ == murl);
                    }
                    assert(0 <= i < before.len() && before[i as int].url@ == murl && ms
                        == before.update(i as int, ms[i as int]));
                }
                return true;
            }
            i = i + 1;
        }
        self.mappings.push(m);
        return true;
    }

    /// Consults the discovery cache for `url`; on a miss, when discovery is
    /// switched on, caches the freshly fetched form the embedding hands in.
    /// Returns whether a form for `url` is cached afterwards.
    pub fn discover_and_cache_form(&mut self, url: &str, fetched: Option<DiscoveredForm>) -> (r:
        bool)
        requires
            old(self).wf(),
        ensures
            final(self).wf(),
            final(self).mappings == old(self).mappings,
            final(self).discovery_enabled == old(self).discovery_enabled,
            r == (form_for_url(final(self).discovered_forms@, url@) is Some),
            form_for_url(old(self).discovered_forms@, url@) is Some
                ==> final(self).discovered_forms@ == old(self).discovered_forms@,
            match fetched {
                Some(f) => (form_for_url(old(self).discovered_forms@, url@) is None
                    && old(self).discovery_enabled) ==> {
                    &&& final(self).discovered_forms@.len() == old(self).discovered_forms@.len()
                        + 1
                    &&& final(self).discovered_forms@.subrange(
                        0,
                        old(self).discovered_forms@.len() as int,
                    ) == old(self).discovered_forms@
                    &&& final(self).discovered_forms@.last().url@ == url@
                    &&& final(self).discovered_forms@.last().form == f
                },
                None => final(self).discovered_forms@ == old(self).discovered_forms@,
            },
            (form_for_url(old(self).discovered_forms@, url@) is None
                && (!old(self).discovery_enabled || fetched is None))
                ==> final(self).discovered_forms@ == old(self).discovered_forms@,
    {
        match find_form(&self.discovered_forms, url) {
            Some(_) => true,
            None => {
                if !self.discovery_enabled {
                    return false;
                }
                match fetched {
                    Some(f) => {
                        proof {
                            lemma_form_for_url_none(self.discovered_forms@, url@);
                        }
                        let entry = DiscoveredFormEntry { url: String::from_str(url), form: f };
                        let ghost before = self.discovered_forms@;
                        self.discovered_forms.push(entry);
                        proof {
                            lemma_form_for_url_found(self.discovered_forms@, url@, before.len() as int);
                            assert(self.discovered_forms@.subrange(0, before.len() as int)
                                =~= before);
                        }
                        true
                    },
                    None => false,
                }
            },
        }
    }

    /// The names of the fields of the cached form for `url`, or nothing
    /// when no form is cached.
    pub fn get_discovered_field_names(&self, url: &str) -> (r: Vec<String>)
        ensures
            match form_for_url(self.discovered_forms@, url@) {
                Some(f) => r@.len() == f.fields@.len() && forall|i: int|
                    0 <= i < r@.len() ==> (#[trigger] r@[i])@ == f.fields@[i].name@,
                None => r@.len() == 0,
            },
    {
        match find_form(&self.discovered_forms, url) {
            Some(i) => {
                let form = &self.discovered_forms[i].form;
                let mut r: Vec<String> = Vec::new();
                let mut k: usize = 0;
                while k < form.fields.len()
                    invariant
                        k <= form.fields@.len(),
                        form_for_url(self.discovered_forms@, url@) == Some(*form),
                        r@.len() == k,
                        forall|l: int| 0 <= l < k ==> (#[trigger] r@[l])@ == form.fields@[l].name@,
                    decreases form.fields@.len() - k,
                {
                    r.push(form.fields[k].name.clone());
                    k = k + 1;
                }
                r
            },
            None => Vec::new(),
        }
    }
}

/// When no cache entry matches `url`, every cached URL differs from it.
proof fn lemma_form_for_url_none(forms: Seq<DiscoveredFormEntry>, url: Seq<char>)
    requires
        form_for_url(forms, url) is None,
    ensures
        forall|i: int| 0 <= i < forms.len() ==> (#[trigger] forms[i]).url@ != url,
    decreases forms.len(),
{
    if forms.len() > 0 {
        assert(forms[0].url@ != url);
        lemma_form_for_url_none(forms.skip(1), url);
        assert forall|i: int| 0 <= i < forms.len() implies (#[trigger] forms[i]).url@ != url by {
            if i > 0 {
                assert(forms[i] == forms.skip(1)[i - 1]);
            }
        }
    }
}

/// When exactly the entry at `i` matches `url`, the lookup returns it.
proof fn lemma_form_for_url_found(forms: Seq<DiscoveredFormEntry>, url: Seq<char>, i: int)
    requires
        0 <= i < forms.len(),
        forms[i].url@ == url,
        forall|k: int| 0 <= k < i ==> (#[trigger] forms[k]).url@ != url,
    ensures
        form_for_url(forms, url) == Some(forms[i].form),
    decreases i,
{
    if i > 0 {
        lemma_form_for_url_found(forms.skip(1), url, i - 1);
    }
}

} // verus!
