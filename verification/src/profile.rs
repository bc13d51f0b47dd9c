//! Profile adapter: turns a profile record and a form template into the
//! values to type into each field — looking values up through the
//! template's profile mappings, formatting them to the field's
//! requirements, and falling back to generation rules or declared
//! fallback values.  Generation rules that draw on the clock or the
//! random number generator take their draws as explicit inputs, so the
//! whole derivation is verified for every draw.

use vstd::prelude::*;
use crate::sys::{current_year, random_in_range};
use crate::text::{
    str_eq, lower, lower_char, upper_char, lower_char_exec, upper_char_exec, chars_of,
    string_from_chars, keep_digits, keep_digits_exec, keep_alnum_lower, keep_alnum_lower_exec,
    has_char, chars_have, starts_with, str_starts_with, unsigned_parse_of, signed_parse_of,
    parse_u32_chars, parse_i32_chars, dec_padded, dec_signed, dec_digits, u64_padded_string,
    i64_string, push_str_chars, push_all_chars,
};

verus! {

/// One template field's rule: where its value comes from and how it is
/// formatted.
pub struct FieldMapping {
    pub selectors: Vec<String>,
    pub field_type: String,
    pub priority: String,
    pub profile_mappings: Option<Vec<String>>,
    pub fallback_values: Option<Vec<String>>,
    pub fallback_generation: Option<String>,
    pub max_length: Option<usize>,
    pub format: Option<String>,
    pub required: Option<bool>,
}

/// A named field of a form template.
pub struct TemplateField {
    pub name: String,
    pub rule: FieldMapping,
}

/// A form template: the fields a site's form offers and their rules.
pub struct FormTemplate {
    pub id: String,
    pub template_name: String,
    pub url_pattern: String,
    pub fields: Vec<TemplateField>,
}

/// A profile record joined with the template it fills.
pub struct ProfileAdapter {
    pub profile_data: Vec<(String, String)>,
    pub template: FormTemplate,
}

// ---------------------------------------------------------------------------
// Profile lookups
// ---------------------------------------------------------------------------
/// The profile value under `key`, if the record has one.
pub open spec fn profile_lookup(data: Seq<(String, String)>, key: Seq<char>) -> Option<Seq<char>>
    decreases data.len(),
{
    if data.len() == 0 {
        None
    } else if data[0].0@ == key {
        Some(data[0].1@)
    } else {
        profile_lookup(data.skip(1), key)
    }
}

/// The first of `keys` whose profile value exists and is non-empty.
pub open spec fn profile_value_from(data: Seq<(String, String)>, keys: Seq<Seq<char>>) -> Option<
    Seq<char>,
>
    decreases keys.len(),
{
    if keys.len() == 0 {
        None
    } else {
        match profile_lookup(data, keys[0]) {
            Some(v) => if v.len() > 0 {
                Some(v)
            } else {
                profile_value_from(data, keys.skip(1))
            },
            None => profile_value_from(data, keys.skip(1)),
        }
    }
}

fn lookup_value<'a>(data: &'a Vec<(String, String)>, key: &str) -> (r: Option<&'a String>)
    ensures
        match r {
            Some(v) => profile_lookup(data@, key@) == Some(v@),
            None => profile_lookup(data@, key@) is None,
        },
{
    let mut i: usize = 0;
    proof {
        assert(data@.skip(0) =~= data@);
    }
    while i < data.len()
        invariant
            i <= data@.len(),
            profile_lookup(data@, key@) == profile_lookup(data@.skip(i as int), key@),
        decreases data@.len() - i,
    {
        proof {
            assert(data@.skip(i as int)[0] == data@[i as int]);
        }
        if str_eq(data[i].0.as_str(), key) {
            return Some(&data[i].1);
        }
        proof {
            assert(data@.skip(i as int).skip(1) =~= data@.skip(i + 1));
        }
        i = i + 1;
    }
    None
}

fn value_from_keys<'a>(data: &'a Vec<(String, String)>, keys: &Vec<&str>) -> (r: Option<&'a String>)
    ensures
        match r {
            Some(v) => profile_value_from(data@, crate::resolver::str_views(keys@)) == Some(v@),
            None => profile_value_from(data@, crate::resolver::str_views(keys@)) is None,
        },
{
    let ghost ks = crate::resolver::str_views(keys@);
    let mut i: usize = 0;
    proof {
        assert(ks.skip(0) =~= ks);
    }
    while i < keys.len()
        invariant
            i <= keys@.len(),
            ks == crate::resolver::str_views(keys@),
            profile_value_from(data@, ks) == profile_value_from(data@, ks.skip(i as int)),
        decreases keys@.len() - i,
    {
        proof {
            assert(ks.skip(i as int)[0] == ks[i as int]);
            assert(ks[i as int] == keys@[i as int]@);
        }
        match lookup_value(data, keys[i]) {
            Some(v) => {
                if !v.as_str().is_empty() {
                    return Some(v);
                }
            },
            None => {},
        }
        proof {
            assert(ks.skip(i as int).skip(1) =~= ks.skip(i + 1));
        }
        i = i + 1;
    }
    None
}

/// The template rule for `field`, if the template declares one.
pub open spec fn template_rule(fields: Seq<TemplateField>, field: Seq<char>) -> Option<FieldMapping>
    decreases fields.len(),
{
    if fields.len() == 0 {
        None
    } else if fields[0].name@ == field {
        Some(fields[0].rule)
    } else {
        template_rule(fields.skip(1), field)
    }
}

fn find_template_rule<'a>(fields: &'a Vec<TemplateField>, field: &str) -> (r: Option<
    &'a FieldMapping,
>)
    ensures
        match r {
            Some(m) => template_rule(fields@, field@) == Some(*m),
            None => template_rule(fields@, field@) is None,
        },
{
    let mut i: usize = 0;
    proof {
        assert(fields@.skip(0) =~= fields@);
    }
    while i < fields.len()
        invariant
            i <= fields@.len(),
            template_rule(fields@, field@) == template_rule(fields@.skip(i as int), field@),
        decreases fields@.len() - i,
    {
        proof {
            assert(fields@.skip(i as int)[0] == fields@[i as int]);
        }
        if str_eq(fields[i].name.as_str(), field) {
            return Some(&fields[i].rule);
        }
        proof {
            assert(fields@.skip(i as int).skip(1) =~= fields@.skip(i + 1));
        }
        i = i + 1;
    }
    None
}

// ---------------------------------------------------------------------------
// Formatting
// ---------------------------------------------------------------------------
/// US phone formatting: ten digits grouped `(abc) def-ghij`, eleven
/// digits led by a one likewise with the one dropped, anything else
/// unchanged.
pub open spec fn phone_us_of(v: Seq<char>) -> Seq<char> {
    let d = keep_digits(v);
    if d.len() == 10 {
        "("@ + d.subrange(0, 3) + ") "@ + d.subrange(3, 6) + "-"@ + d.subrange(6, 10)
    } else if d.len() == 11 && d[0] == '1' {
        "("@ + d.subrange(1, 4) + ") "@ + d.subrange(4, 7) + "-"@ + d.subrange(7, 11)
    } else {
        v
    }
}

/// The three-letter month abbreviation a month name or number maps to;
/// anything unrecognized is unchanged.
pub open spec fn month_abbrev_of(v: Seq<char>) -> Seq<char> {
    let l = lower(v);
    if l == "january"@ || l == "jan"@ || l == "1"@ || l == "01"@ {
        "Jan"@
    } else if l == "february"@ || l == "feb"@ || l == "2"@ || l == "02"@ {
        "Feb"@
    } else if l == "march"@ || l == "mar"@ || l == "3"@ || l == "03"@ {
        "Mar"@
    } else if l == "april"@ || l == "apr"@ || l == "4"@ || l == "04"@ {
        "Apr"@
    } else if l == "may"@ || l == "5"@ || l == "05"@ {
        "May"@
    } else if l == "june"@ || l == "jun"@ || l == "6"@ || l == "06"@ {
        "Jun"@
    } else if l == "july"@ || l == "jul"@ || l == "7"@ || l == "07"@ {
        "Jul"@
    } else if l == "august"@ || l == "aug"@ || l == "8"@ || l == "08"@ {
        "Aug"@
    } else if l == "september"@ || l == "sep"@ || l == "9"@ || l == "09"@ {
        "Sep"@
    } else if l == "october"@ || l == "oct"@ || l == "10"@ {
        "Oct"@
    } else if l == "november"@ || l == "nov"@ || l == "11"@ {
        "Nov"@
    } else if l == "december"@ || l == "dec"@ || l == "12"@ {
        "Dec"@
    } else {
        v
    }
}

/// What one named format does to a value; an unknown format leaves it
/// unchanged.
pub open spec fn apply_format(v: Seq<char>, fmt: Seq<char>) -> Seq<char> {
    if fmt == "single_char_lowercase"@ {
        if v.len() > 0 {
            seq![lower_char(v[0])]
        } else {
            v
        }
    } else if fmt == "first_char_uppercase"@ {
        if v.len() > 0 {
            seq![upper_char(v[0])]
        } else {
            v
        }
    } else if fmt == "alphanumeric_lowercase"@ {
        keep_alnum_lower(v)
    } else if fmt == "phone_us"@ {
        phone_us_of(v)
    } else if fmt == "email_format"@ {
        if has_char(v, '@') {
            v
        } else {
            v + "@example.com"@
        }
    } else if fmt == "url"@ {
        if starts_with(v, "http"@) || starts_with(v, "www."@) {
            v
        } else {
            "www."@ + v
        }
    } else if fmt == "zero_padded"@ {
        match unsigned_parse_of(v, 4294967295) {
            Some(n) => dec_padded(n as nat, 2),
            None => v,
        }
    } else if fmt == "four_digit_year"@ {
        if v.len() == 4 {
            v
        } else if v.len() == 2 {
            "20"@ + v
        } else {
            v
        }
    } else if fmt == "month_abbrev"@ {
        month_abbrev_of(v)
    } else if fmt == "numeric"@ {
        keep_digits(v)
    } else if fmt == "integer"@ {
        match signed_parse_of(v, 2147483648, 2147483647) {
            Some(n) => dec_signed(n),
            None => dec_signed(0),
        }
    } else {
        v
    }
}

/// What a field's rule makes of a raw value: its format applied, then the
/// result cut to the rule's maximum length.
pub open spec fn spec_format_value(
    v: Seq<char>,
    fmt: Option<Seq<char>>,
    max_length: Option<usize>,
) -> Seq<char> {
    let f = match fmt {
        Some(name) => apply_format(v, name),
        None => v,
    };
    match max_length {
        Some(n) => if f.len() > n {
            f.take(n as int)
        } else {
            f
        },
        None => f,
    }
}

fn format_phone_us_chars(v: &Vec<char>) -> (r: Vec<char>)
    ensures
        r@ == phone_us_of(v@),
{
    let d = keep_digits_exec(v);
    let ten: bool = d.len() == 10;
    let eleven: bool = d.len() == 11 && d[0] == '1';
    if ten || eleven {
        let off: usize = if eleven {
            1
        } else {
            0
        };
        let mut out: Vec<char> = Vec::new();
        out.push('(');
        let mut i: usize = off;
        while i < off + 3
            invariant
                off <= 1,
                off + 3 <= d@.len(),
                off <= i <= off + 3,
                out@ == seq!['('] + d@.subrange(off as int, i as int),
            decreases off + 3 - i,
        {
            out.push(d[i]);
            i = i + 1;
            proof {
                assert(out@ =~= seq!['('] + d@.subrange(off as int, i as int));
            }
        }
        out.push(')');
        out.push(' ');
        let ghost mid = out@;
        let mut i: usize = off + 3;
        while i < off + 6
            invariant
                off <= 1,
                off + 6 <= d@.len(),
                off + 3 <= i <= off + 6,
                out@ == mid + d@.subrange(off + 3, i as int),
            decreases off + 6 - i,
        {
            out.push(d[i]);
            i = i + 1;
            proof {
                assert(out@ =~= mid + d@.subrange(off + 3, i as int));
            }
        }
        out.push('-');
        let ghost mid2 = out@;
        let mut i: usize = off + 6;
        while i < off + 10
            invariant
                off <= 1,
                off + 10 <= d@.len(),
                off + 6 <= i <= off + 10,
                out@ == mid2 + d@.subrange(off + 6, i as int),
            decreases off + 10 - i,
        {
            out.push(d[i]);
            i = i + 1;
            proof {
                assert(out@ =~= mid2 + d@.subrange(off + 6, i as int));
            }
        }
        proof {
            reveal_strlit("(");
            reveal_strlit(") ");
            reveal_strlit("-");
            assert(out@ =~= phone_us_of(v@));
        }
        out
    } else {
        let mut out: Vec<char> = Vec::new();
        push_all_chars(&mut out, v);
        proof {
            assert(out@ =~= v@);
        }
        out
    }
}

fn month_abbrev_lit(v: &Vec<char>) -> (r: Option<&'static str>)
    ensures
        match r {
            Some(s) => s@ == month_abbrev_of(v@),
            None => month_abbrev_of(v@) == v@,
        },
{
    let l = string_from_chars(&crate::text::to_lower_vec(v));
    let ls = l.as_str();
    let lit: Option<&'static str> = if str_eq(ls, "january") || str_eq(ls, "jan") || str_eq(
        ls,
        "1",
    ) || str_eq(ls, "01") {
        Some("Jan")
    } else if str_eq(ls, "february") || str_eq(ls, "feb") || str_eq(ls, "2") || str_eq(ls, "02") {
        Some("Feb")
    } else if str_eq(ls, "march") || str_eq(ls, "mar") || str_eq(ls, "3") || str_eq(ls, "03") {
        Some("Mar")
    } else if str_eq(ls, "april") || str_eq(ls, "apr") || str_eq(ls, "4") || str_eq(ls, "04") {
        Some("Apr")
    } else if str_eq(ls, "may") || str_eq(ls, "5") || str_eq(ls, "05") {
        Some("May")
    } else if str_eq(ls, "june") || str_eq(ls, "jun") || str_eq(ls, "6") || str_eq(ls, "06") {
        Some("Jun")
    } else if str_eq(ls, "july") || str_eq(ls, "jul") || str_eq(ls, "7") || str_eq(ls, "07") {
        Some("Jul")
    } else if str_eq(ls, "august") || str_eq(ls, "aug") || str_eq(ls, "8") || str_eq(ls, "08") {
        Some("Aug")
    } else if str_eq(ls, "september") || str_eq(ls, "sep") || str_eq(ls, "9") || str_eq(ls, "09") {
        Some("Sep")
    } else if str_eq(ls, "october") || str_eq(ls, "oct") || str_eq(ls, "10") {
        Some("Oct")
    } else if str_eq(ls, "november") || str_eq(ls, "nov") || str_eq(ls, "11") {
        Some("Nov")
    } else if str_eq(ls, "december") || str_eq(ls, "dec") || str_eq(ls, "12") {
        Some("Dec")
    } else {
        None
    };
    lit
}

impl ProfileAdapter {
    /// A fresh adapter over a profile record and a template.
    pub fn new(profile_data: Vec<(String, String)>, template: FormTemplate) -> (r: Self)
        ensures
            r.profile_data == profile_data,
            r.template == template,
    {
        ProfileAdapter { profile_data, template }
    }

    /// `value` formatted as the rule requires: the named format applied,
    /// then the result cut to the rule's maximum length.
    pub fn format_value(&self, value: &str, field_mapping: &FieldMapping) -> (r: String)
        ensures
            r@ == spec_format_value(
                value@,
                match field_mapping.format {
                    Some(f) => Some(f@),
                    None => None,
                },
                field_mapping.max_length,
            ),
    {
        let v = chars_of(value);
        let formatted: Vec<char> = match &field_mapping.format {
            None => v,
            Some(f) => {
                let fs = f.as_str();
                if str_eq(fs, "single_char_lowercase") {
                    let mut out: Vec<char> = Vec::new();
                    if v.len() > 0 {
                        out.push(lower_char_exec(v[0]));
                        proof {
                            assert(out@ =~= seq![lower_char(v@[0])]);
                        }
                        out
                    } else {
                        v
                    }
                } else if str_eq(fs, "first_char_uppercase") {
                    let mut out: Vec<char> = Vec::new();
                    if v.len() > 0 {
                        out.push(upper_char_exec(v[0]));
                        proof {
                            assert(out@ =~= seq![upper_char(v@[0])]);
                        }
                        out
                    } else {
                        v
                    }
                } else if str_eq(fs, "alphanumeric_lowercase") {
                    keep_alnum_lower_exec(&v)
                } else if str_eq(fs, "phone_us") {
                    format_phone_us_chars(&v)
                } else if str_eq(fs, "email_format") {
                    if chars_have(&v, '@') {
                        v
                    } else {
                        let mut out = v;
                        push_str_chars(&mut out, "@example.com");
                        out
                    }
                } else if str_eq(fs, "url") {
                    if str_starts_with(value, "http") || str_starts_with(value, "www.") {
                        v
                    } else {
                        let mut out: Vec<char> = Vec::new();
                        push_str_chars(&mut out, "www.");
                        push_all_chars(&mut out, &v);
                        out
                    }
                } else if str_eq(fs, "zero_padded") {
                    match parse_u32_chars(&v) {
                        Some(n) => {
                            let s = u64_padded_string(n as u64, 2);
                            chars_of(s.as_str())
                        },
                        None => v,
                    }
                } else if str_eq(fs, "four_digit_year") {
                    if v.len() == 4 {
                        v
                    } else if v.len() == 2 {
                        let mut out: Vec<char> = Vec::new();
                        push_str_chars(&mut out, "20");
                        push_all_chars(&mut out, &v);
                        out
                    } else {
                        v
                    }
                } else if str_eq(fs, "month_abbrev") {
                    match month_abbrev_lit(&v) {
                        Some(lit) => chars_of(lit),
                        None => v,
                    }
                } else if str_eq(fs, "numeric") {
                    keep_digits_exec(&v)
                } else if str_eq(fs, "integer") {
                    let n: i32 = match parse_i32_chars(&v) {
                        Some(n) => n,
                        None => 0,
                    };
                    let s = i64_string(n as i64);
                    chars_of(s.as_str())
                } else {
                    v
                }
            },
        };
        let cut: Vec<char> = match field_mapping.max_length {
            Some(n) => {
                if formatted.len() > n {
                    let mut out: Vec<char> = Vec::new();
                    let mut i: usize = 0;
                    while i < n
                        invariant
                            n <= formatted@.len(),
                            i <= n,
                            out@ == formatted@.subrange(0, i as int),
                        decreases n - i,
                    {
                        out.push(formatted[i]);
                        i = i + 1;
                        proof {
                            assert(out@ =~= formatted@.subrange(0, i as int));
                        }
                    }
                    proof {
                        assert(out@ =~= formatted@.take(n as int));
                    }
                    out
                } else {
                    formatted
                }
            },
            None => formatted,
        };
        string_from_chars(&cut)
    }
}

// ---------------------------------------------------------------------------
// Generation rules
// ---------------------------------------------------------------------------
/// The clock reading and random draws one evaluation of the generation
/// rules consumes.  Taking them as data makes every rule a function.
pub struct GenerationDraws {
    pub this_year: i32,
    pub month_index: u64,
    pub day: u64,
    pub adult_age: u64,
    pub future_month: u64,
    pub years_ahead: u64,
    pub three_digit: u64,
    pub income: u64,
    pub ssn_area: u64,
    pub ssn_group: u64,
    pub ssn_serial: u64,
    pub license_number: u64,
    pub pw_adjective: u64,
    pub pw_noun: u64,
    pub pw_number: u64,
    pub pw_symbol: u64,
}

/// The windows each draw is made from.
pub open spec fn wf_draws(d: GenerationDraws) -> bool {
    &&& d.month_index < 12
    &&& 1 <= d.day <= 28
    &&& 25 <= d.adult_age <= 54
    &&& 1 <= d.future_month <= 12
    &&& 2 <= d.years_ahead <= 5
    &&& 100 <= d.three_digit <= 999
    &&& 35000 <= d.income <= 149999
    &&& 100 <= d.ssn_area <= 998
    &&& 10 <= d.ssn_group <= 98
    &&& 1000 <= d.ssn_serial <= 9998
    &&& 100000000 <= d.license_number <= 999999998
    &&& d.pw_adjective < 5
    &&& d.pw_noun < 5
    &&& 100 <= d.pw_number <= 998
    &&& d.pw_symbol < 5
}

/// Fresh draws from the clock and the random number generator.
pub fn sample_draws() -> (r: GenerationDraws)
    ensures
        wf_draws(r),
{
    GenerationDraws {
        this_year: current_year(),
        month_index: random_in_range(0, 11),
        day: random_in_range(1, 28),
        adult_age: random_in_range(25, 54),
        future_month: random_in_range(1, 12),
        years_ahead: random_in_range(2, 5),
        three_digit: random_in_range(100, 999),
        income: random_in_range(35000, 149999),
        ssn_area: random_in_range(100, 998),
        ssn_group: random_in_range(10, 98),
        ssn_serial: random_in_range(1000, 9998),
        license_number: random_in_range(100000000, 999999998),
        pw_adjective: random_in_range(0, 4),
        pw_noun: random_in_range(0, 4),
        pw_number: random_in_range(100, 998),
        pw_symbol: random_in_range(0, 4),
    }
}

/// The month abbreviation at a zero-based index.
pub open spec fn month_at(i: int) -> Seq<char> {
    if i == 0 {
        "Jan"@
    } else if i == 1 {
        "Feb"@
    } else if i == 2 {
        "Mar"@
    } else if i == 3 {
        "Apr"@
    } else if i == 4 {
        "May"@
    } else if i == 5 {
        "Jun"@
    } else if i == 6 {
        "Jul"@
    } else if i == 7 {
        "Aug"@
    } else if i == 8 {
        "Sep"@
    } else if i == 9 {
        "Oct"@
    } else if i == 10 {
        "Nov"@
    } else {
        "Dec"@
    }
}

fn month_at_exec(i: u64) -> (r: &'static str)
    requires
        i < 12,
    ensures
        r@ == month_at(i as int),
{
    if i == 0 {
        "Jan"
    } else if i == 1 {
        "Feb"
    } else if i == 2 {
        "Mar"
    } else if i == 3 {
        "Apr"
    } else if i == 4 {
        "May"
    } else if i == 5 {
        "Jun"
    } else if i == 6 {
        "Jul"
    } else if i == 7 {
        "Aug"
    } else if i == 8 {
        "Sep"
    } else if i == 9 {
        "Oct"
    } else if i == 10 {
        "Nov"
    } else {
        "Dec"
    }
}

/// The password adjectives, nouns and symbols, by index.
pub open spec fn pw_adjective_at(i: int) -> Seq<char> {
    if i == 0 {
        "Quick"@
    } else if i == 1 {
        "Smart"@
    } else if i == 2 {
        "Strong"@
    } else if i == 3 {
        "Bright"@
    } else {
        "Swift"@
    }
}

fn pw_adjective_at_exec(i: u64) -> (r: &'static str)
    requires
        i < 5,
    ensures
        r@ == pw_adjective_at(i as int),
{
    if i == 0 {
        "Quick"
    } else if i == 1 {
        "Smart"
    } else if i == 2 {
        "Strong"
    } else if i == 3 {
        "Bright"
    } else {
        "Swift"
    }
}

pub open spec fn pw_noun_at(i: int) -> Seq<char> {
    if i == 0 {
        "Lion"@
    } else if i == 1 {
        "Eagle"@
    } else if i == 2 {
        "Tiger"@
    } else if i == 3 {
        "Wolf"@
    } else {
        "Bear"@
    }
}

fn pw_noun_at_exec(i: u64) -> (r: &'static str)
    requires
        i < 5,
    ensures
        r@ == pw_noun_at(i as int),
{
    if i == 0 {
        "Lion"
    } else if i == 1 {
        "Eagle"
    } else if i == 2 {
        "Tiger"
    } else if i == 3 {
        "Wolf"
    } else {
        "Bear"
    }
}

pub open spec fn pw_symbol_at(i: int) -> Seq<char> {
    if i == 0 {
        "!"@
    } else if i == 1 {
        "@"@
    } else if i == 2 {
        "#"@
    } else if i == 3 {
        "$"@
    } else {
        "%"@
    }
}

fn pw_symbol_at_exec(i: u64) -> (r: &'static str)
    requires
        i < 5,
    ensures
        r@ == pw_symbol_at(i as int),
{
    if i == 0 {
        "!"
    } else if i == 1 {
        "@"
    } else if i == 2 {
        "#"
    } else if i == 3 {
        "$"
    } else {
        "%"
    }
}

/// The key lists the generation rules probe the profile with.
pub open spec fn first_name_keys() -> Seq<Seq<char>> {
    seq!["firstName"@, "first_name"@, "fname"@]
}

pub open spec fn last_name_keys() -> Seq<Seq<char>> {
    seq!["lastName"@, "last_name"@, "lname"@]
}

/// What a generation rule produces for `field`, over the profile record
/// and the given draws; `None` when the rule is unknown or its inputs are
/// missing.
pub open spec fn spec_generate(
    data: Seq<(String, String)>,
    rule: Seq<char>,
    field: Seq<char>,
    d: GenerationDraws,
) -> Option<Seq<char>> {
    if rule == "combine_first_last"@ {
        match profile_value_from(data, first_name_keys()) {
            Some(f) => match profile_value_from(data, last_name_keys()) {
                Some(l) => Some(f + " "@ + l),
                None => None,
            },
            None => None,
        }
    } else if rule == "generate_from_name"@ {
        let f = match profile_value_from(data, first_name_keys()) {
            Some(f) => f,
            None => "user"@,
        };
        let l = match profile_value_from(data, last_name_keys()) {
            Some(l) => l,
            None => "example"@,
        };
        if field == "email"@ {
            Some(lower(f) + "."@ + lower(l) + "@example.com"@)
        } else if field == "username"@ {
            Some(lower(f) + lower(l))
        } else if field == "website"@ {
            Some("www."@ + lower(f) + lower(l) + ".dev"@)
        } else {
            None
        }
    } else if rule == "use_full_name"@ {
        match profile_value_from(data, seq!["fullName"@, "full_name"@, "name"@]) {
            Some(v) => Some(v),
            None => match profile_value_from(data, seq!["firstName"@, "first_name"@]) {
                Some(f) => match profile_value_from(data, seq!["lastName"@, "last_name"@]) {
                    Some(l) => Some(f + " "@ + l),
                    None => Some("John Smith"@),
                },
                None => Some("John Smith"@),
            },
        }
    } else if rule == "use_city_state"@ {
        let city = match profile_value_from(data, seq!["city"@]) {
            Some(c) => c,
            None => "New York"@,
        };
        let st = match profile_value_from(data, seq!["state"@, "province"@]) {
            Some(s) => s,
            None => "NY"@,
        };
        Some(city + ", "@ + st)
    } else if rule == "calculate_from_birth_year"@ {
        match profile_value_from(data, seq!["birthYear"@, "birth_year"@]) {
            Some(by) => match signed_parse_of(by, 2147483648, 2147483647) {
                Some(b) => Some(dec_signed(d.this_year - b)),
                None => Some("25"@),
            },
            None => Some("25"@),
        }
    } else if rule == "generate_secure"@ {
        Some(
            pw_adjective_at(d.pw_adjective as int) + pw_noun_at(d.pw_noun as int) + dec_digits(
                d.pw_number as nat,
            ) + pw_symbol_at(d.pw_symbol as int),
        )
    } else if rule == "random_month"@ {
        Some(month_at(d.month_index as int))
    } else if rule == "random_day"@ {
        Some(dec_padded(d.day as nat, 2))
    } else if rule == "adult_birth_year"@ {
        Some(dec_signed(d.this_year - d.adult_age))
    } else if rule == "future_month"@ {
        Some(dec_padded(d.future_month as nat, 2))
    } else if rule == "future_year"@ {
        Some(dec_signed(d.this_year + d.years_ahead))
    } else if rule == "random_3_digit"@ {
        Some(dec_padded(d.three_digit as nat, 3))
    } else if rule == "generate_realistic_income"@ {
        Some(dec_digits((d.income / 1000 * 1000) as nat))
    } else if rule == "generate_fake_ssn"@ {
        Some(
            dec_padded(d.ssn_area as nat, 3) + "-"@ + dec_padded(d.ssn_group as nat, 2) + "-"@
                + dec_padded(d.ssn_serial as nat, 4),
        )
    } else if rule == "generate_license"@ {
        Some("D"@ + dec_padded(d.license_number as nat, 9))
    } else {
        None
    }
}

impl ProfileAdapter {
    /// The profile value under the first of `keys` that holds a
    /// non-empty one.
    fn profile_value(&self, keys: &Vec<&str>) -> (r: Option<String>)
        ensures
            match r {
                Some(v) => profile_value_from(
                    self.profile_data@,
                    crate::resolver::str_views(keys@),
                ) == Some(v@),
                None => profile_value_from(self.profile_data@, crate::resolver::str_views(keys@))
                    is None,
            },
    {
        match value_from_keys(&self.profile_data, keys) {
            Some(v) => Some(v.clone()),
            None => None,
        }
    }

    /// What `generation_rule` produces for `field_name` under the given
    /// draws, exactly as `spec_generate` fixes it.
    pub fn generate_value_with(
        &self,
        generation_rule: &str,
        field_name: &str,
        draws: &GenerationDraws,
    ) -> (r: Option<String>)
        requires
            wf_draws(*draws),
        ensures
            match r {
                Some(v) => spec_generate(
                    self.profile_data@,
                    generation_rule@,
                    field_name@,
                    *draws,
                ) == Some(v@),
                None => spec_generate(self.profile_data@, generation_rule@, field_name@, *draws)
                    is None,
            },
    {
        let rule = generation_rule;
        if str_eq(rule, "combine_first_last") {
            let mut fk: Vec<&str> = Vec::new();
            fk.push("firstName");
            fk.push("first_name");
            fk.push("fname");
            proof {
                assert(crate::resolver::str_views(fk@) =~= first_name_keys());
            }
            let mut lk: Vec<&str> = Vec::new();
            lk.push("lastName");
            lk.push("last_name");
            lk.push("lname");
            proof {
                assert(crate::resolver::str_views(lk@) =~= last_name_keys());
            }
            let f = match self.profile_value(&fk) {
                Some(f) => f,
                None => {
                    return None;
                },
            };
            let l = match self.profile_value(&lk) {
                Some(l) => l,
                None => {
                    return None;
                },
            };
            let mut out: Vec<char> = Vec::new();
            push_str_chars(&mut out, f.as_str());
            push_str_chars(&mut out, " ");
            push_str_chars(&mut out, l.as_str());
            Some(string_from_chars(&out))
        } else if str_eq(rule, "generate_from_name") {
            let mut fk: Vec<&str> = Vec::new();
            fk.push("firstName");
            fk.push("first_name");
            fk.push("fname");
            proof {
                assert(crate::resolver::str_views(fk@) =~= first_name_keys());
            }
            let mut lk: Vec<&str> = Vec::new();
            lk.push("lastName");
            lk.push("last_name");
            lk.push("lname");
            proof {
                assert(crate::resolver::str_views(lk@) =~= last_name_keys());
            }
            let f = match self.profile_value(&fk) {
                Some(f) => f,
                None => String::from_str("user"),
            };
            let l = match self.profile_value(&lk) {
                Some(l) => l,
                None => String::from_str("example"),
            };
            let fv = crate::text::to_lower_vec(&chars_of(f.as_str()));
            let lv = crate::text::to_lower_vec(&chars_of(l.as_str()));
            if str_eq(field_name, "email") {
                let mut out: Vec<char> = Vec::new();
                push_all_chars(&mut out, &fv);
                push_str_chars(&mut out, ".");
                push_all_chars(&mut out, &lv);
                push_str_chars(&mut out, "@example.com");
                Some(string_from_chars(&out))
            } else if str_eq(field_name, "username") {
                let mut out: Vec<char> = Vec::new();
                push_all_chars(&mut out, &fv);
                push_all_chars(&mut out, &lv);
                Some(string_from_chars(&out))
            } else if str_eq(field_name, "website") {
                let mut out: Vec<char> = Vec::new();
                push_str_chars(&mut out, "www.");
                push_all_chars(&mut out, &fv);
                push_all_chars(&mut out, &lv);
                push_str_chars(&mut out, ".dev");
                Some(string_from_chars(&out))
            } else {
                None
            }
        } else if str_eq(rule, "use_full_name") {
            let mut nk: Vec<&str> = Vec::new();
            nk.push("fullName");
            nk.push("full_name");
            nk.push("name");
            proof {
                assert(crate::resolver::str_views(nk@) =~= seq![
                    "fullName"@,
                    "full_name"@,
                    "name"@,
                ]);
            }
            match self.profile_value(&nk) {
                Some(v) => Some(v),
                None => {
                    let mut fk: Vec<&str> = Vec::new();
                    fk.push("firstName");
                    fk.push("first_name");
                    proof {
                        assert(crate::resolver::str_views(fk@) =~= seq![
                            "firstName"@,
                            "first_name"@,
                        ]);
                    }
                    let mut lk: Vec<&str> = Vec::new();
                    lk.push("lastName");
                    lk.push("last_name");
                    proof {
                        assert(crate::resolver::str_views(lk@) =~= seq![
                            "lastName"@,
                            "last_name"@,
                        ]);
                    }
                    match self.profile_value(&fk) {
                        Some(f) => match self.profile_value(&lk) {
                            Some(l) => {
                                let mut out: Vec<char> = Vec::new();
                                push_str_chars(&mut out, f.as_str());
                                push_str_chars(&mut out, " ");
                                push_str_chars(&mut out, l.as_str());
                                Some(string_from_chars(&out))
                            },
                            None => Some(String::from_str("John Smith")),
                        },
                        None => Some(String::from_str("John Smith")),
                    }
                },
            }
        } else if str_eq(rule, "use_city_state") {
            let mut ck: Vec<&str> = Vec::new();
            ck.push("city");
            proof {
                assert(crate::resolver::str_views(ck@) =~= seq!["city"@]);
            }
            let mut sk: Vec<&str> = Vec::new();
            sk.push("state");
            sk.push("province");
            proof {
                assert(crate::resolver::str_views(sk@) =~= seq!["state"@, "province"@]);
            }
            let city = match self.profile_value(&ck) {
                Some(c) => c,
                None => String::from_str("New York"),
            };
            let st = match self.profile_value(&sk) {
                Some(s) => s,
                None => String::from_str("NY"),
            };
            let mut out: Vec<char> = Vec::new();
            push_str_chars(&mut out, city.as_str());
            push_str_chars(&mut out, ", ");
            push_str_chars(&mut out, st.as_str());
            Some(string_from_chars(&out))
        } else if str_eq(rule, "calculate_from_birth_year") {
            let mut bk: Vec<&str> = Vec::new();
            bk.push("birthYear");
            bk.push("birth_year");
            proof {
                assert(crate::resolver::str_views(bk@) =~= seq!["birthYear"@, "birth_year"@]);
            }
            match self.profile_value(&bk) {
                Some(by) => {
                    let bv = chars_of(by.as_str());
                    match parse_i32_chars(&bv) {
                        Some(b) => {
                            let age: i64 = (draws.this_year as i64) - (b as i64);
                            Some(i64_string(age))
                        },
                        None => Some(String::from_str("25")),
                    }
                },
                None => Some(String::from_str("25")),
            }
        } else if str_eq(rule, "generate_secure") {
            let mut out: Vec<char> = Vec::new();
            push_str_chars(&mut out, pw_adjective_at_exec(draws.pw_adjective));
            push_str_chars(&mut out, pw_noun_at_exec(draws.pw_noun));
            let num = u64_padded_string(draws.pw_number, 0);
            proof {
                assert(dec_padded(draws.pw_number as nat, 0) == dec_digits(draws.pw_number as nat));
            }
            push_str_chars(&mut out, num.as_str());
            push_str_chars(&mut out, pw_symbol_at_exec(draws.pw_symbol));
            Some(string_from_chars(&out))
        } else if str_eq(rule, "random_month") {
            Some(String::from_str(month_at_exec(draws.month_index)))
        } else if str_eq(rule, "random_day") {
            Some(u64_padded_string(draws.day, 2))
        } else if str_eq(rule, "adult_birth_year") {
            let year: i64 = (draws.this_year as i64) - (draws.adult_age as i64);
            Some(i64_string(year))
        } else if str_eq(rule, "future_month") {
            Some(u64_padded_string(draws.future_month, 2))
        } else if str_eq(rule, "future_year") {
            let year: i64 = (draws.this_year as i64) + (draws.years_ahead as i64);
            Some(i64_string(year))
        } else if str_eq(rule, "random_3_digit") {
            Some(u64_padded_string(draws.three_digit, 3))
        } else if str_eq(rule, "generate_realistic_income") {
            let rounded: u64 = draws.income / 1000 * 1000;
            let s = u64_padded_string(rounded, 0);
            proof {
                assert(dec_padded(rounded as nat, 0) == dec_digits(rounded as nat));
            }
            Some(s)
        } else if str_eq(rule, "generate_fake_ssn") {
            let mut out: Vec<char> = Vec::new();
            let a = u64_padded_string(draws.ssn_area, 3);
            let g = u64_padded_string(draws.ssn_group, 2);
            let s = u64_padded_string(draws.ssn_serial, 4);
            push_str_chars(&mut out, a.as_str());
            push_str_chars(&mut out, "-");
            push_str_chars(&mut out, g.as_str());
            push_str_chars(&mut out, "-");
            push_str_chars(&mut out, s.as_str());
            Some(string_from_chars(&out))
        } else if str_eq(rule, "generate_license") {
            let mut out: Vec<char> = Vec::new();
            push_str_chars(&mut out, "D");
            let n = u64_padded_string(draws.license_number, 9);
            push_str_chars(&mut out, n.as_str());
            Some(string_from_chars(&out))
        } else {
            None
        }
    }

    /// What a generation rule produces for `field_name` with fresh draws
    /// from the clock and the random number generator: some well-formed
    /// draws give exactly this result.
    pub fn generate_value(&self, generation_rule: &str, field_name: &str) -> (r: Option<String>)
        ensures
            exists|d: GenerationDraws|
                #[trigger] wf_draws(d) && (match r {
                    Some(v) => spec_generate(self.profile_data@, generation_rule@, field_name@, d)
                        == Some(v@),
                    None => spec_generate(self.profile_data@, generation_rule@, field_name@, d)
                        is None,
                }),
    {
        let draws = sample_draws();
        let r = self.generate_value_with(generation_rule, field_name, &draws);
        proof {
            let d = draws;
            assert(wf_draws(d) && (match r {
                Some(v) => spec_generate(self.profile_data@, generation_rule@, field_name@, d)
                    == Some(v@),
                None => spec_generate(self.profile_data@, generation_rule@, field_name@, d)
                    is None,
            }));
        }
        r
    }

    /// A fresh password: an adjective, a noun, three digits and a symbol.
    pub fn generate_secure_password(&self) -> (r: String)
        ensures
            exists|d: GenerationDraws|
                #[trigger] wf_draws(d) && r@ == pw_adjective_at(d.pw_adjective as int) + pw_noun_at(
                    d.pw_noun as int,
                ) + dec_digits(d.pw_number as nat) + pw_symbol_at(d.pw_symbol as int),
    {
        let draws = sample_draws();
        let mut out: Vec<char> = Vec::new();
        push_str_chars(&mut out, pw_adjective_at_exec(draws.pw_adjective));
        push_str_chars(&mut out, pw_noun_at_exec(draws.pw_noun));
        let num = u64_padded_string(draws.pw_number, 0);
        proof {
            assert(dec_padded(draws.pw_number as nat, 0) == dec_digits(draws.pw_number as nat));
        }
        push_str_chars(&mut out, num.as_str());
        push_str_chars(&mut out, pw_symbol_at_exec(draws.pw_symbol));
        let r = string_from_chars(&out);
        proof {
            let d = draws;
            assert(wf_draws(d) && r@ == pw_adjective_at(d.pw_adjective as int) + pw_noun_at(
                d.pw_noun as int,
            ) + dec_digits(d.pw_number as nat) + pw_symbol_at(d.pw_symbol as int));
        }
        r
    }
}

// ---------------------------------------------------------------------------
// Deriving a field's value
// ---------------------------------------------------------------------------
/// The ghost image of a rule's format and length constraints.
pub open spec fn rule_format(rule: FieldMapping) -> Option<Seq<char>> {
    match rule.format {
        Some(f) => Some(f@),
        None => None,
    }
}

/// The value a field's rule derives, under the given draws: the first
/// non-empty mapped profile value, formatted; else what the rule's
/// generation produces; else the rule's first declared fallback value, if
/// it is non-empty.
pub open spec fn spec_field_value(
    data: Seq<(String, String)>,
    rule: FieldMapping,
    field: Seq<char>,
    d: GenerationDraws,
) -> Option<Seq<char>> {
    let mapped = match rule.profile_mappings {
        Some(keys) => profile_value_from(data, keys@.map_values(|s: String| s@)),
        None => None,
    };
    match mapped {
        Some(v) => Some(spec_format_value(v, rule_format(rule), rule.max_length)),
        None => {
            let generated = match rule.fallback_generation {
                Some(g) => spec_generate(data, g@, field, d),
                None => None,
            };
            match generated {
                Some(v) => Some(v),
                None => match rule.fallback_values {
                    Some(vs) => if vs@.len() > 0 && vs@[0]@.len() > 0 {
                        Some(vs@[0]@)
                    } else {
                        None
                    },
                    None => None,
                },
            }
        },
    }
}

/// The value the adapter derives for `field`, under the given draws:
/// nothing when the template does not declare the field, else what the
/// field's rule derives.
pub open spec fn spec_get_field_value(
    adapter: ProfileAdapter,
    field: Seq<char>,
    d: GenerationDraws,
) -> Option<Seq<char>> {
    match template_rule(adapter.template.fields@, field) {
        Some(rule) => spec_field_value(adapter.profile_data@, rule, field, d),
        None => None,
    }
}

impl ProfileAdapter {
    /// The value derived for `field_name` under the given draws, exactly
    /// as `spec_get_field_value` fixes it.
    pub fn get_field_value_with(&self, field_name: &str, draws: &GenerationDraws) -> (r: Option<
        String,
    >)
        requires
            wf_draws(*draws),
        ensures
            match r {
                Some(v) => spec_get_field_value(*self, field_name@, *draws) == Some(v@),
                None => spec_get_field_value(*self, field_name@, *draws) is None,
            },
    {
        let rule = match find_template_rule(&self.template.fields, field_name) {
            Some(rule) => rule,
            None => {
                return None;
            },
        };
        let mapped: Option<&String> = match &rule.profile_mappings {
            Some(keys) => {
                let mut ks: Vec<&str> = Vec::new();
                let mut i: usize = 0;
                while i < keys.len()
                    invariant
                        i <= keys@.len(),
                        ks@.len() == i,
                        forall|j: int| 0 <= j < i ==> (#[trigger] ks@[j])@ == keys@[j]@,
                    decreases keys@.len() - i,
                {
                    ks.push(keys[i].as_str());
                    i = i + 1;
                }
                proof {
                    assert(crate::resolver::str_views(ks@) =~= keys@.map_values(|s: String| s@));
                }
                value_from_keys(&self.profile_data, &ks)
            },
            None => None,
        };
        match mapped {
            Some(v) => {
                return Some(self.format_value(v.as_str(), rule));
            },
            None => {},
        }
        let generated: Option<String> = match &rule.fallback_generation {
            Some(g) => self.generate_value_with(g.as_str(), field_name, draws),
            None => None,
        };
        match generated {
            Some(v) => {
                return Some(v);
            },
            None => {},
        }
        match &rule.fallback_values {
            Some(vs) => {
                if vs.len() > 0 && !vs[0].as_str().is_empty() {
                    Some(vs[0].clone())
                } else {
                    None
                }
            },
            None => None,
        }
    }

    /// The value derived for `field_name` with fresh draws: some
    /// well-formed draws give exactly this result.
    pub fn get_field_value(&self, field_name: &str) -> (r: Option<String>)
        ensures
            exists|d: GenerationDraws|
                #[trigger] wf_draws(d) && (match r {
                    Some(v) => spec_get_field_value(*self, field_name@, d) == Some(v@),
                    None => spec_get_field_value(*self, field_name@, d) is None,
                }),
    {
        let draws = sample_draws();
        let r = self.get_field_value_with(field_name, &draws);
        proof {
            let d = draws;
            assert(wf_draws(d) && (match r {
                Some(v) => spec_get_field_value(*self, field_name@, d) == Some(v@),
                None => spec_get_field_value(*self, field_name@, d) is None,
            }));
        }
        r
    }
}

/// The name-value pairs the adapter derives over the whole template,
/// under the given draws, in template order, fields without a value left
/// out.
pub open spec fn spec_form_values(
    adapter: ProfileAdapter,
    fields: Seq<TemplateField>,
    d: GenerationDraws,
) -> Seq<(Seq<char>, Seq<char>)>
    decreases fields.len(),
{
    if fields.len() == 0 {
        Seq::empty()
    } else {
        let head: Seq<(Seq<char>, Seq<char>)> = match spec_get_field_value(
            adapter,
            fields[0].name@,
            d,
        ) {
            Some(v) => seq![(fields[0].name@, v)],
            None => Seq::empty(),
        };
        head + spec_form_values(adapter, fields.skip(1), d)
    }
}

/// The ghost image of a vector of name-value pairs.
pub open spec fn pair_views(v: Seq<(String, String)>) -> Seq<(Seq<char>, Seq<char>)> {
    v.map_values(|p: (String, String)| (p.0@, p.1@))
}

impl ProfileAdapter {
    /// Every template field's derived value, under the given draws, in
    /// template order.
    pub fn get_form_values_with(&self, draws: &GenerationDraws) -> (r: Vec<(String, String)>)
        requires
            wf_draws(*draws),
        ensures
            pair_views(r@) == spec_form_values(*self, self.template.fields@, *draws),
    {
        let ghost full = self.template.fields@;
        let mut r: Vec<(String, String)> = Vec::new();
        let mut i: usize = 0;
        proof {
            assert(full.skip(0) =~= full);
            assert(pair_views(r@) + spec_form_values(*self, full, *draws) =~= spec_form_values(
                *self,
                full,
                *draws,
            ));
        }
        while i < self.template.fields.len()
            invariant
                i <= self.template.fields@.len(),
                full == self.template.fields@,
                wf_draws(*draws),
                pair_views(r@) + spec_form_values(*self, full.skip(i as int), *draws)
                    == spec_form_values(*self, full, *draws),
            decreases self.template.fields@.len() - i,
        {
            proof {
                assert(full.skip(i as int)[0] == full[i as int]);
                assert(full.skip(i as int).skip(1) =~= full.skip(i + 1));
            }
            let name = &self.template.fields[i].name;
            let ghost before = r@;
            match self.get_field_value_with(name.as_str(), draws) {
                Some(v) => {
                    r.push((name.clone(), v));
                    proof {
                        assert(pair_views(r@) =~= pair_views(before).push(
                            (full[i as int].name@, r@.last().1@),
                        ));
                    }
                },
                None => {},
            }
            i = i + 1;
            proof {
                assert(pair_views(r@) + spec_form_values(*self, full.skip(i as int), *draws)
                    =~= spec_form_values(*self, full, *draws));
            }
        }
        proof {
            assert(spec_form_values(*self, full.skip(i as int), *draws) =~= Seq::<
                (Seq<char>, Seq<char>),
            >::empty());
            assert(pair_views(r@) =~= spec_form_values(*self, full, *draws));
        }
        r
    }

    /// Every template field's derived value, with fresh draws: some
    /// well-formed draws give exactly this result.
    pub fn get_form_values(&self) -> (r: Vec<(String, String)>)
        ensures
            exists|d: GenerationDraws|
                #[trigger] wf_draws(d) && pair_views(r@) == spec_form_values(
                    *self,
                    self.template.fields@,
                    d,
                ),
    {
        let draws = sample_draws();
        let r = self.get_form_values_with(&draws);
        proof {
            let d = draws;
            assert(wf_draws(d) && pair_views(r@) == spec_form_values(
                *self,
                self.template.fields@,
                d,
            ));
        }
        r
    }
}

/// The form values a profile record yields against a template: the pairs
/// its adapter derives.
pub fn get_form_values_with_adapter(
    profile_data: Vec<(String, String)>,
    template: FormTemplate,
) -> (r: Vec<(String, String)>)
    ensures
        exists|d: GenerationDraws|
            #[trigger] wf_draws(d) && pair_views(r@) == spec_form_values(
                (ProfileAdapter { profile_data, template }),
                template.fields@,
                d,
            ),
{
    let adapter = ProfileAdapter::new(profile_data, template);
    adapter.get_form_values()
}

} // verus!
