//! Field-fill orchestrator: for a profile's field set against a page, it
//! builds each field's candidate selectors, dispatches each candidate to
//! the plain-fill path or the dropdown subsystem, walks the fallback chain
//! on errors, and tallies the run.  The browser work happens outside: the
//! per-field machine emits one action at a time and consumes its outcome.

use vstd::prelude::*;
use crate::text::{str_eq, str_contains, has_substring, lower, trimmed, trim_chars, chars_of};
use crate::resolver::string_views;
use crate::models::{SavedUrl, UrlGroup, UrlConfig, UrlStatus};

verus! {

// ---------------------------------------------------------------------------
// Site-specific selectors
// ---------------------------------------------------------------------------
/// The form-field selector the built-in site mapping pins a profile field
/// to, if any.
pub open spec fn roboform_selector_of(name: Seq<char>) -> Option<Seq<char>> {
    if name == "title"@ {
        Some("input[name='01___title']"@)
    } else if name == "firstName"@ {
        Some("input[name='02frstname']"@)
    } else if name == "middleInitial"@ {
        Some("input[name='03middle_i']"@)
    } else if name == "lastName"@ {
        Some("input[name='04lastname']"@)
    } else if name == "fullName"@ {
        Some("input[name='04fullname']"@)
    } else if name == "company"@ {
        Some("input[name='05_company']"@)
    } else if name == "position"@ || name == "jobTitle"@ {
        Some("input[name='06position']"@)
    } else if name == "address"@ || name == "address1"@ {
        Some("input[name='10address1']"@)
    } else if name == "address2"@ {
        Some("input[name='11address2']"@)
    } else if name == "city"@ {
        Some("input[name='13adr_city']"@)
    } else if name == "state"@ {
        Some("input[name='14adrstate']"@)
    } else if name == "country"@ {
        Some("input[name='15_country']"@)
    } else if name == "zip"@ || name == "zipCode"@ {
        Some("input[name='16addr_zip']"@)
    } else if name == "phone"@ || name == "homePhone"@ {
        Some("input[name='20homephon']"@)
    } else if name == "workPhone"@ || name == "workTelephone"@ {
        Some("input[name='21workphon']"@)
    } else if name == "fax"@ || name == "faxPhone"@ {
        Some("input[name='22faxphone']"@)
    } else if name == "cellPhone"@ || name == "mobilePhone"@ {
        Some("input[name='23cellphon']"@)
    } else if name == "email"@ {
        Some("input[name='24emailadr']"@)
    } else if name == "website"@ || name == "webSite"@ {
        Some("input[name='25web_site']"@)
    } else if name == "username"@ {
        Some("input[name='30_user_id']"@)
    } else if name == "password"@ {
        Some("input[name='31password']"@)
    } else if name == "creditCardType"@ {
        Some("select[name='40cc__type']"@)
    } else if name == "creditCardNumber"@ {
        Some("input[name='41ccnumber']"@)
    } else if name == "creditCardExpMonth"@ {
        Some("select[name='42ccexp_mm']"@)
    } else if name == "creditCardExpYear"@ {
        Some("select[name='43ccexp_yy']"@)
    } else if name == "creditCardCVC"@ {
        Some("input[name='43cvc']"@)
    } else if name == "creditCardName"@ {
        Some("input[name='44cc_uname']"@)
    } else if name == "creditCardBank"@ {
        Some("input[name='45ccissuer']"@)
    } else if name == "creditCardServicePhone"@ {
        Some("input[name='46cccstsvc']"@)
    } else if name == "sex"@ || name == "gender"@ {
        Some("input[name='60pers_sex']"@)
    } else if name == "ssn"@ {
        Some("input[name='61pers_ssn']"@)
    } else if name == "driverLicense"@ {
        Some("input[name='62driv_lic']"@)
    } else if name == "birthMonth"@ {
        Some("select[name='66mm']"@)
    } else if name == "birthDay"@ {
        Some("select[name='67dd']"@)
    } else if name == "birthYear"@ {
        Some("select[name='68yy']"@)
    } else if name == "age"@ {
        Some("input[name='66pers_age']"@)
    } else if name == "birthPlace"@ {
        Some("input[name='67birth_pl']"@)
    } else if name == "income"@ {
        Some("input[name='68__income']"@)
    } else if name == "customMessage"@ {
        Some("input[name='71__custom']"@)
    } else if name == "comments"@ {
        Some("input[name='72__commnt']"@)
    } else {
        None
    }
}

/// The form-field selector the built-in site mapping pins `field_name`
/// to, exactly as `roboform_selector_of` fixes it.
pub fn get_roboform_selector(field_name: &str) -> (r: Option<String>)
    ensures
        match r {
            Some(s) => roboform_selector_of(field_name@) == Some(s@),
            None => roboform_selector_of(field_name@) is None,
        },
{
    let lit: Option<&'static str> = if str_eq(field_name, "title") {
        Some("input[name='01___title']")
    } else if str_eq(field_name, "firstName") {
        Some("input[name='02frstname']")
    } else if str_eq(field_name, "middleInitial") {
        Some("input[name='03middle_i']")
    } else if str_eq(field_name, "lastName") {
        Some("input[name='04lastname']")
    } else if str_eq(field_name, "fullName") {
        Some("input[name='04fullname']")
    } else if str_eq(field_name, "company") {
        Some("input[name='05_company']")
    } else if str_eq(field_name, "position") || str_eq(field_name, "jobTitle") {
        Some("input[name='06position']")
    } else if str_eq(field_name, "address") || str_eq(field_name, "address1") {
        Some("input[name='10address1']")
    } else if str_eq(field_name, "address2") {
        Some("input[name='11address2']")
    } else if str_eq(field_name, "city") {
        Some("input[name='13adr_city']")
    } else if str_eq(field_name, "state") {
        Some("input[name='14adrstate']")
    } else if str_eq(field_name, "country") {
        Some("input[name='15_country']")
    } else if str_eq(field_name, "zip") || str_eq(field_name, "zipCode") {
        Some("input[name='16addr_zip']")
    } else if str_eq(field_name, "phone") || str_eq(field_name, "homePhone") {
        Some("input[name='20homephon']")
    } else if str_eq(field_name, "workPhone") || str_eq(field_name, "workTelephone") {
        Some("input[name='21workphon']")
    } else if str_eq(field_name, "fax") || str_eq(field_name, "faxPhone") {
        Some("input[name='22faxphone']")
    } else if str_eq(field_name, "cellPhone") || str_eq(field_name, "mobilePhone") {
        Some("input[name='23cellphon']")
    } else if str_eq(field_name, "email") {
        Some("input[name='24emailadr']")
    } else if str_eq(field_name, "website") || str_eq(field_name, "webSite") {
        Some("input[name='25web_site']")
    } else if str_eq(field_name, "username") {
        Some("input[name='30_user_id']")
    } else if str_eq(field_name, "password") {
        Some("input[name='31password']")
    } else if str_eq(field_name, "creditCardType") {
        Some("select[name='40cc__type']")
    } else if str_eq(field_name, "creditCardNumber") {
        Some("input[name='41ccnumber']")
    } else if str_eq(field_name, "creditCardExpMonth") {
        Some("select[name='42ccexp_mm']")
    } else if str_eq(field_name, "creditCardExpYear") {
        Some("select[name='43ccexp_yy']")
    } else if str_eq(field_name, "creditCardCVC") {
        Some("input[name='43cvc']")
    } else if str_eq(field_name, "creditCardName") {
        Some("input[name='44cc_uname']")
    } else if str_eq(field_name, "creditCardBank") {
        Some("input[name='45ccissuer']")
    } else if str_eq(field_name, "creditCardServicePhone") {
        Some("input[name='46cccstsvc']")
    } else if str_eq(field_name, "sex") || str_eq(field_name, "gender") {
        Some("input[name='60pers_sex']")
    } else if str_eq(field_name, "ssn") {
        Some("input[name='61pers_ssn']")
    } else if str_eq(field_name, "driverLicense") {
        Some("input[name='62driv_lic']")
    } else if str_eq(field_name, "birthMonth") {
        Some("select[name='66mm']")
    } else if str_eq(field_name, "birthDay") {
        Some("select[name='67dd']")
    } else if str_eq(field_name, "birthYear") {
        Some("select[name='68yy']")
    } else if str_eq(field_name, "age") {
        Some("input[name='66pers_age']")
    } else if str_eq(field_name, "birthPlace") {
        Some("input[name='67birth_pl']")
    } else if str_eq(field_name, "income") {
        Some("input[name='68__income']")
    } else if str_eq(field_name, "customMessage") {
        Some("input[name='71__custom']")
    } else if str_eq(field_name, "comments") {
        Some("input[name='72__commnt']")
    } else {
        None
    };
    match lit {
        Some(s) => Some(String::from_str(s)),
        None => None,
    }
}

// ---------------------------------------------------------------------------
// Site-specific dropdown values
// ---------------------------------------------------------------------------
/// The option value the built-in site's dropdowns expect for a profile
/// value: credit-card types by their display text, birth months as
/// three-letter abbreviations, expiry months zero-padded; any other value
/// passes through unchanged.
pub open spec fn roboform_dropdown_value_of(field: Seq<char>, value: Seq<char>) -> Seq<char> {
    if field == "creditCardType"@ {
        if value == "Visa"@ {
            "Visa (Preferred)"@
        } else if value == "MasterCard"@ || value == "Master Card"@ {
            "Master Card"@
        } else if value == "American Express"@ || value == "Amex"@ {
            "American Express"@
        } else if value == "Discover"@ {
            "Discover"@
        } else if value == "Diners Club"@ {
            "Diners Club"@
        } else {
            value
        }
    } else if field == "birthMonth"@ {
        if value == "January"@ {
            "Jan"@
        } else if value == "February"@ {
            "Feb"@
        } else if value == "March"@ {
            "Mar"@
        } else if value == "April"@ {
            "Apr"@
        } else if value == "May"@ {
            "May"@
        } else if value == "June"@ {
            "Jun"@
        } else if value == "July"@ {
            "Jul"@
        } else if value == "August"@ {
            "Aug"@
        } else if value == "September"@ {
            "Sep"@
        } else if value == "October"@ {
            "Oct"@
        } else if value == "November"@ {
            "Nov"@
        } else if value == "December"@ {
            "Dec"@
        } else {
            value
        }
    } else if field == "creditCardExpMonth"@ {
        if value == "01"@ || value == "1"@ {
            "01"@
        } else if value == "02"@ || value == "2"@ {
            "02"@
        } else if value == "03"@ || value == "3"@ {
            "03"@
        } else if value == "04"@ || value == "4"@ {
            "04"@
        } else if value == "05"@ || value == "5"@ {
            "05"@
        } else if value == "06"@ || value == "6"@ {
            "06"@
        } else if value == "07"@ || value == "7"@ {
            "07"@
        } else if value == "08"@ || value == "8"@ {
            "08"@
        } else if value == "09"@ || value == "9"@ {
            "09"@
        } else if value == "10"@ {
            "10"@
        } else if value == "11"@ {
            "11"@
        } else if value == "12"@ {
            "12"@
        } else {
            value
        }
    } else {
        value
    }
}

/// Maps a profile value to the option value the built-in site's dropdowns
/// expect, exactly as `roboform_dropdown_value_of` fixes it.
pub fn map_roboform_dropdown_value(field_name: &str, profile_value: &str) -> (r: String)
    ensures
        r@ == roboform_dropdown_value_of(field_name@, profile_value@),
{
    let lit: Option<&'static str> = if str_eq(field_name, "creditCardType") {
        if str_eq(profile_value, "Visa") {
            Some("Visa (Preferred)")
        } else if str_eq(profile_value, "MasterCard") || str_eq(profile_value, "Master Card") {
            Some("Master Card")
        } else if str_eq(profile_value, "American Express") || str_eq(profile_value, "Amex") {
            Some("American Express")
        } else if str_eq(profile_value, "Discover") {
            Some("Discover")
        } else if str_eq(profile_value, "Diners Club") {
            Some("Diners Club")
        } else {
            None
        }
    } else if str_eq(field_name, "birthMonth") {
        if str_eq(profile_value, "January") {
            Some("Jan")
        } else if str_eq(profile_value, "February") {
            Some("Feb")
        } else if str_eq(profile_value, "March") {
            Some("Mar")
        } else if str_eq(profile_value, "April") {
            Some("Apr")
        } else if str_eq(profile_value, "May") {
            Some("May")
        } else if str_eq(profile_value, "June") {
            Some("Jun")
        } else if str_eq(profile_value, "July") {
            Some("Jul")
        } else if str_eq(profile_value, "August") {
            Some("Aug")
        } else if str_eq(profile_value, "September") {
            Some("Sep")
        } else if str_eq(profile_value, "October") {
            Some("Oct")
        } else if str_eq(profile_value, "November") {
            Some("Nov")
        } else if str_eq(profile_value, "December") {
            Some("Dec")
        } else {
            None
        }
    } else if str_eq(field_name, "creditCardExpMonth") {
        if str_eq(profile_value, "01") || str_eq(profile_value, "1") {
            Some("01")
        } else if str_eq(profile_value, "02") || str_eq(profile_value, "2") {
            Some("02")
        } else if str_eq(profile_value, "03") || str_eq(profile_value, "3") {
            Some("03")
        } else if str_eq(profile_value, "04") || str_eq(profile_value, "4") {
            Some("04")
        } else if str_eq(profile_value, "05") || str_eq(profile_value, "5") {
            Some("05")
        } else if str_eq(profile_value, "06") || str_eq(profile_value, "6") {
            Some("06")
        } else if str_eq(profile_value, "07") || str_eq(profile_value, "7") {
            Some("07")
        } else if str_eq(profile_value, "08") || str_eq(profile_value, "8") {
            Some("08")
        } else if str_eq(profile_value, "09") || str_eq(profile_value, "9") {
            Some("09")
        } else if str_eq(profile_value, "10") {
            Some("10")
        } else if str_eq(profile_value, "11") {
            Some("11")
        } else if str_eq(profile_value, "12") {
            Some("12")
        } else {
            None
        }
    } else {
        None
    };
    match lit {
        Some(s) => String::from_str(s),
        None => String::from_str(profile_value),
    }
}

// ---------------------------------------------------------------------------
// Candidate selectors and dispatch
// ---------------------------------------------------------------------------
/// Whether a selector looks dropdown-like: it names a `<select>` element
/// or mentions a dropdown, combobox or listbox.
pub open spec fn is_dropdown_selector_spec(sel: Seq<char>) -> bool {
    ||| has_substring(sel, "select["@)
    ||| has_substring(sel, "dropdown"@)
    ||| has_substring(sel, "combobox"@)
    ||| has_substring(sel, "listbox"@)
}

/// Whether `selector` is handled by the dropdown subsystem rather than a
/// plain fill.
pub fn is_dropdown_selector(selector: &str) -> (r: bool)
    ensures
        r == is_dropdown_selector_spec(selector@),
{
    str_contains(selector, "select[") || str_contains(selector, "dropdown") || str_contains(
        selector,
        "combobox",
    ) || str_contains(selector, "listbox")
}

/// The generic attribute-pattern selectors the orchestrator falls back to
/// for a field name.
pub open spec fn generic_selector_views(field: Seq<char>) -> Seq<Seq<char>> {
    seq![
        "input[name='"@ + field + "']"@,
        "input[id='"@ + field + "']"@,
        "select[name='"@ + field + "']"@,
        "textarea[name='"@ + field + "']"@,
        "input[placeholder*='"@ + lower(field) + "']"@,
    ]
}

/// The candidate selectors for one field, in order: the built-in site
/// selector when the field has one, then the generic attribute patterns.
pub open spec fn candidate_selector_views(field: Seq<char>) -> Seq<Seq<char>> {
    match roboform_selector_of(field) {
        Some(s) => seq![s] + generic_selector_views(field),
        None => generic_selector_views(field),
    }
}

/// The ordered candidate selectors for `field_name`; never empty.
pub fn candidate_selectors(field_name: &str) -> (r: Vec<String>)
    ensures
        string_views(r@) == candidate_selector_views(field_name@),
        r@.len() > 0,
{
    let mut r: Vec<String> = Vec::new();
    match get_roboform_selector(field_name) {
        Some(s) => r.push(s),
        None => {},
    }
    r.push(crate::resolver::attr_selector("input[name='", field_name, "']"));
    r.push(crate::resolver::attr_selector("input[id='", field_name, "']"));
    r.push(crate::resolver::attr_selector("select[name='", field_name, "']"));
    r.push(crate::resolver::attr_selector("textarea[name='", field_name, "']"));
    let lowered = crate::text::to_lowercase(field_name);
    let mut ph = String::from_str("input[placeholder*='");
    ph.append(lowered.as_str());
    ph.append("']");
    r.push(ph);
    proof {
        assert(string_views(r@) =~= candidate_selector_views(field_name@));
    }
    r
}

// ---------------------------------------------------------------------------
// The per-field machine
// ---------------------------------------------------------------------------
/// One field's fixed context: its name, the profile value, and the
/// ordered candidate selectors.
pub struct FieldCtx {
    pub field_name: String,
    pub value: String,
    pub selectors: Vec<String>,
}

/// The ghost image of the context.
pub struct FieldCtxView {
    pub field_name: Seq<char>,
    pub value: Seq<char>,
    pub selectors: Seq<Seq<char>>,
}

/// The ghost image of the context.
pub open spec fn field_ctx_view(c: FieldCtx) -> FieldCtxView {
    FieldCtxView {
        field_name: c.field_name@,
        value: c.value@,
        selectors: string_views(c.selectors@),
    }
}

impl FieldCtx {
    /// The context for filling `field_name` with `value`.
    pub fn new(field_name: &str, value: &str) -> (r: FieldCtx)
        ensures
            field_ctx_view(r) == (FieldCtxView {
                field_name: field_name@,
                value: value@,
                selectors: candidate_selector_views(field_name@),
            }),
            r.selectors@.len() > 0,
    {
        FieldCtx {
            field_name: String::from_str(field_name),
            value: String::from_str(value),
            selectors: candidate_selectors(field_name),
        }
    }
}

/// One action against the page for one candidate selector.
pub enum FieldAction {
    /// Fill the element with the value, under the per-selector timeout.
    TryPlainFill { selector: String, value: String },
    /// Run the classification-driven dropdown path.
    TryDropdownAi { selector: String, value: String },
    /// Run the selection validator, three attempts, with the site-mapped
    /// option value.
    TryDropdownLegacy { selector: String, value: String },
    /// Run oracle-driven failure recovery with the site-mapped value.
    TryRecovery { selector: String, value: String },
}

/// The ghost image of an action.
pub enum FieldActionView {
    TryPlainFill { selector: Seq<char>, value: Seq<char> },
    TryDropdownAi { selector: Seq<char>, value: Seq<char> },
    TryDropdownLegacy { selector: Seq<char>, value: Seq<char> },
    TryRecovery { selector: Seq<char>, value: Seq<char> },
}

/// The ghost image of an action.
pub open spec fn field_action_view(a: FieldAction) -> FieldActionView {
    match a {
        FieldAction::TryPlainFill { selector, value } => FieldActionView::TryPlainFill {
            selector: selector@,
            value: value@,
        },
        FieldAction::TryDropdownAi { selector, value } => FieldActionView::TryDropdownAi {
            selector: selector@,
            value: value@,
        },
        FieldAction::TryDropdownLegacy { selector, value } => FieldActionView::TryDropdownLegacy {
            selector: selector@,
            value: value@,
        },
        FieldAction::TryRecovery { selector, value } => FieldActionView::TryRecovery {
            selector: selector@,
            value: value@,
        },
    }
}

/// Which outcome the field machine is waiting for, and on which candidate
/// selector.
pub enum FieldPhase {
    PlainFill { idx: usize },
    DropdownAi { idx: usize },
    DropdownLegacy { idx: usize },
    DropdownRecovery { idx: usize },
}

/// What the field machine asks for next.
pub enum FieldStep {
    Act(FieldAction, FieldPhase),
    Done { filled: bool },
}

/// The ghost image of a step.
pub enum FieldStepView {
    Act(FieldActionView, FieldPhase),
    Done { filled: bool },
}

/// The ghost image of a step.
pub open spec fn field_step_view(s: FieldStep) -> FieldStepView {
    match s {
        FieldStep::Act(a, p) => FieldStepView::Act(field_action_view(a), p),
        FieldStep::Done { filled } => FieldStepView::Done { filled },
    }
}

/// The first action for candidate `i`: the dropdown path when the
/// selector looks dropdown-like, else a plain fill.
pub open spec fn spec_dispatch_selector(c: FieldCtxView, i: int) -> FieldStepView {
    if 0 <= i < c.selectors.len() {
        if is_dropdown_selector_spec(c.selectors[i]) {
            FieldStepView::Act(
                FieldActionView::TryDropdownAi { selector: c.selectors[i], value: c.value },
                FieldPhase::DropdownAi { idx: i as usize },
            )
        } else {
            FieldStepView::Act(
                FieldActionView::TryPlainFill { selector: c.selectors[i], value: c.value },
                FieldPhase::PlainFill { idx: i as usize },
            )
        }
    } else {
        FieldStepView::Done { filled: false }
    }
}

/// After candidate `i` is exhausted: the next candidate, or the field's
/// failure after the last.
pub open spec fn spec_next_selector(c: FieldCtxView, i: int) -> FieldStepView {
    if 0 <= i && i + 1 < c.selectors.len() {
        spec_dispatch_selector(c, i + 1)
    } else {
        FieldStepView::Done { filled: false }
    }
}

/// The field machine's first move.
pub open spec fn spec_field_start(c: FieldCtxView) -> FieldStepView {
    spec_dispatch_selector(c, 0)
}

/// The option value the dropdown fallback paths hand to the page.
pub open spec fn mapped_value(c: FieldCtxView) -> Seq<char> {
    roboform_dropdown_value_of(c.field_name, c.value)
}

/// The field machine's transition relation: a candidate succeeds and the
/// field is done, or the dropdown fallback chain walks AI path, then
/// validator, then recovery, and a candidate that fails every path gives
/// way to the next candidate.
pub open spec fn spec_field_step(c: FieldCtxView, phase: FieldPhase, succeeded: bool) -> FieldStepView {
    match phase {
        FieldPhase::PlainFill { idx } => if succeeded {
            FieldStepView::Done { filled: true }
        } else {
            spec_next_selector(c, idx as int)
        },
        FieldPhase::DropdownAi { idx } => if succeeded {
            FieldStepView::Done { filled: true }
        } else {
            if idx < c.selectors.len() {
                FieldStepView::Act(
                    FieldActionView::TryDropdownLegacy {
                        selector: c.selectors[idx as int],
                        value: mapped_value(c),
                    },
                    FieldPhase::DropdownLegacy { idx },
                )
            } else {
                FieldStepView::Done { filled: false }
            }
        },
        FieldPhase::DropdownLegacy { idx } => if succeeded {
            FieldStepView::Done { filled: true }
        } else {
            if idx < c.selectors.len() {
                FieldStepView::Act(
                    FieldActionView::TryRecovery {
                        selector: c.selectors[idx as int],
                        value: mapped_value(c),
                    },
                    FieldPhase::DropdownRecovery { idx },
                )
            } else {
                FieldStepView::Done { filled: false }
            }
        },
        FieldPhase::DropdownRecovery { idx } => if succeeded {
            FieldStepView::Done { filled: true }
        } else {
            spec_next_selector(c, idx as int)
        },
    }
}

fn dispatch_selector(c: &FieldCtx, i: usize) -> (r: FieldStep)
    ensures
        field_step_view(r) == spec_dispatch_selector(field_ctx_view(*c), i as int),
{
    if i < c.selectors.len() {
        let sel = &c.selectors[i];
        proof {
            assert(field_ctx_view(*c).selectors[i as int] == c.selectors@[i as int]@);
        }
        if is_dropdown_selector(sel.as_str()) {
            FieldStep::Act(
                FieldAction::TryDropdownAi { selector: sel.clone(), value: c.value.clone() },
                FieldPhase::DropdownAi { idx: i },
            )
        } else {
            FieldStep::Act(
                FieldAction::TryPlainFill { selector: sel.clone(), value: c.value.clone() },
                FieldPhase::PlainFill { idx: i },
            )
        }
    } else {
        FieldStep::Done { filled: false }
    }
}

fn next_selector(c: &FieldCtx, i: usize) -> (r: FieldStep)
    ensures
        field_step_view(r) == spec_next_selector(field_ctx_view(*c), i as int),
{
    if i < c.selectors.len() && c.selectors.len() - i > 1 {
        dispatch_selector(c, i + 1)
    } else {
        proof {
            assert(!(i + 1 < field_ctx_view(*c).selectors.len()));
        }
        FieldStep::Done { filled: false }
    }
}

/// The field machine's first move for `c`.
pub fn field_start(c: &FieldCtx) -> (r: FieldStep)
    ensures
        field_step_view(r) == spec_field_start(field_ctx_view(*c)),
{
    dispatch_selector(c, 0)
}

/// One step of the field machine: `succeeded` reports the awaited
/// action's outcome (a timeout counts as failure).
pub fn field_step(c: &FieldCtx, phase: FieldPhase, succeeded: bool) -> (r: FieldStep)
    ensures
        field_step_view(r) == spec_field_step(field_ctx_view(*c), phase, succeeded),
{
    match phase {
        FieldPhase::PlainFill { idx } => {
            if succeeded {
                FieldStep::Done { filled: true }
            } else {
                next_selector(c, idx)
            }
        },
        FieldPhase::DropdownAi { idx } => {
            if succeeded {
                FieldStep::Done { filled: true }
            } else {
                if idx < c.selectors.len() {
                    proof {
                        assert(field_ctx_view(*c).selectors[idx as int] == c.selectors@[idx as int]@);
                    }
                    FieldStep::Act(
                        FieldAction::TryDropdownLegacy {
                            selector: c.selectors[idx].clone(),
                            value: map_roboform_dropdown_value(
                                c.field_name.as_str(),
                                c.value.as_str(),
                            ),
                        },
                        FieldPhase::DropdownLegacy { idx },
                    )
                } else {
                    FieldStep::Done { filled: false }
                }
            }
        },
        FieldPhase::DropdownLegacy { idx } => {
            if succeeded {
                FieldStep::Done { filled: true }
            } else {
                if idx < c.selectors.len() {
                    proof {
                        assert(field_ctx_view(*c).selectors[idx as int] == c.selectors@[idx as int]@);
                    }
                    FieldStep::Act(
                        FieldAction::TryRecovery {
                            selector: c.selectors[idx].clone(),
                            value: map_roboform_dropdown_value(
                                c.field_name.as_str(),
                                c.value.as_str(),
                            ),
                        },
                        FieldPhase::DropdownRecovery { idx },
                    )
                } else {
                    FieldStep::Done { filled: false }
                }
            }
        },
        FieldPhase::DropdownRecovery { idx } => {
            if succeeded {
                FieldStep::Done { filled: true }
            } else {
                next_selector(c, idx)
            }
        },
    }
}

// ---------------------------------------------------------------------------
// Skipping and tallying
// ---------------------------------------------------------------------------
/// Whether a field is skipped: its value is empty or all blanks.
pub open spec fn skip_field_spec(value: Seq<char>) -> bool {
    trimmed(value).len() == 0
}

/// Whether the orchestrator skips this value instead of attempting a
/// fill.
pub fn skip_field(value: &str) -> (r: bool)
    ensures
        r == skip_field_spec(value@),
{
    let v = chars_of(value);
    let t = trim_chars(&v);
    t.len() == 0
}

/// The running tally of one page's fill: how many fields the profile
/// holds, how many were processed so far, how many of those were
/// attempted (non-empty), and how many were filled.
pub struct FillSession {
    pub total: usize,
    pub processed: usize,
    pub attempted: usize,
    pub filled: usize,
}

impl FillSession {
    /// The counts never run ahead of one another or past the total.
    pub open spec fn wf(&self) -> bool {
        self.filled <= self.attempted <= self.processed <= self.total
    }

    /// A fresh tally over `total` profile fields.
    pub fn new(total: usize) -> (r: Self)
        ensures
            r.wf(),
            r.total == total,
            r.processed == 0,
            r.attempted == 0,
            r.filled == 0,
    {
        FillSession { total, processed: 0, attempted: 0, filled: 0 }
    }

    /// Records a field skipped for an empty value: it counts toward the
    /// processed fields but neither toward attempts nor fills.
    pub fn record_skip(&mut self)
        requires
            old(self).wf(),
            old(self).processed < old(self).total,
        ensures
            final(self).wf(),
            final(self).total == old(self).total,
            final(self).processed == old(self).processed + 1,
            final(self).attempted == old(self).attempted,
            final(self).filled == old(self).filled,
    {
        self.processed = self.processed + 1;
    }

    /// Records an attempted field: filled when some candidate selector
    /// succeeded, failed otherwise.
    pub fn record_attempt(&mut self, filled: bool)
        requires
            old(self).wf(),
            old(self).processed < old(self).total,
        ensures
            final(self).wf(),
            final(self).total == old(self).total,
            final(self).processed == old(self).processed + 1,
            final(self).attempted == old(self).attempted + 1,
            final(self).filled == old(self).filled + (if filled {
                1int
            } else {
                0int
            }),
    {
        self.processed = self.processed + 1;
        self.attempted = self.attempted + 1;
        if filled {
            self.filled = self.filled + 1;
        }
    }
}

// ---------------------------------------------------------------------------
// Run pacing and cancellation
// ---------------------------------------------------------------------------
/// How long one field may take before the run moves on.
pub const FIELD_TIMEOUT_MS: u64 = 10000;

/// How long one plain fill attempt may take before the next candidate
/// selector is tried.
pub const SELECTOR_FILL_TIMEOUT_MS: u64 = 5000;

/// The pause between fields, so the target site is not overwhelmed.
pub const INTER_FIELD_DELAY_MS: u64 = 50;

/// One automation run's observable state: whether it still runs, where it
/// stands, and what stopped it.  The run's owner holds this handle;
/// cancellation is cooperative and takes effect at the next checkpoint.
pub struct RunState {
    pub running: bool,
    pub current_url: Option<String>,
    pub processed_count: usize,
    pub total_count: usize,
    pub error: Option<String>,
}

impl RunState {
    /// A run over `total_count` URLs, underway.
    pub fn new(total_count: usize) -> (r: Self)
        ensures
            r.running,
            r.current_url is None,
            r.processed_count == 0,
            r.total_count == total_count,
            r.error is None,
    {
        RunState {
            running: true,
            current_url: None,
            processed_count: 0,
            total_count,
            error: None,
        }
    }

    /// Whether the run goes on; the loop asks between URLs and between
    /// fields.
    pub fn should_continue(&self) -> (r: bool)
        ensures
            r == self.running,
    {
        self.running
    }

    /// Requests cooperative cancellation: the run stops at its next
    /// checkpoint.
    pub fn request_stop(&mut self)
        ensures
            !final(self).running,
            final(self).current_url == old(self).current_url,
            final(self).processed_count == old(self).processed_count,
            final(self).total_count == old(self).total_count,
            final(self).error == old(self).error,
    {
        self.running = false;
    }

    /// Enters the URL at position `index`.
    pub fn begin_url(&mut self, url: String, index: usize)
        ensures
            final(self).running == old(self).running,
            final(self).current_url == Some(url),
            final(self).processed_count == index,
            final(self).total_count == old(self).total_count,
            final(self).error == old(self).error,
    {
        self.current_url = Some(url);
        self.processed_count = index;
    }

    /// Marks the run complete: no longer running, every URL processed.
    pub fn complete(&mut self)
        ensures
            !final(self).running,
            final(self).current_url is None,
            final(self).processed_count == old(self).total_count,
            final(self).total_count == old(self).total_count,
            final(self).error == old(self).error,
    {
        self.running = false;
        self.current_url = None;
        self.processed_count = self.total_count;
    }

    /// Marks the run failed before completion.
    pub fn fail(&mut self, error: String)
        ensures
            !final(self).running,
            final(self).error == Some(error),
            final(self).current_url == old(self).current_url,
            final(self).processed_count == old(self).processed_count,
            final(self).total_count == old(self).total_count,
    {
        self.running = false;
        self.error = Some(error);
    }
}

// ---------------------------------------------------------------------------
// URL selection
// ---------------------------------------------------------------------------
/// Why a URL selection failed.
#[derive(Clone, Copy, Debug, PartialEq, Eq, Structural)]
pub enum UrlSelectError {
    GroupNotFound,
}

/// The URLs of the active saved URLs, in order.
pub open spec fn active_urls(us: Seq<SavedUrl>) -> Seq<Seq<char>>
    decreases us.len(),
{
    if us.len() == 0 {
        Seq::empty()
    } else {
        let head: Seq<Seq<char>> = if us[0].status is Active {
            seq![us[0].url@]
        } else {
            Seq::empty()
        };
        head + active_urls(us.skip(1))
    }
}

/// The URLs of the active saved URLs that belong to the named group.
pub open spec fn active_urls_in_group(us: Seq<SavedUrl>, group: Seq<char>) -> Seq<Seq<char>>
    decreases us.len(),
{
    if us.len() == 0 {
        Seq::empty()
    } else {
        let head: Seq<Seq<char>> = if us[0].status is Active && (match us[0].group {
            Some(g) => g@ == group,
            None => false,
        }) {
            seq![us[0].url@]
        } else {
            Seq::empty()
        };
        head + active_urls_in_group(us.skip(1), group)
    }
}

/// The name of the group with the given id, if one exists.
pub open spec fn group_name_of(groups: Seq<UrlGroup>, group_id: Seq<char>) -> Option<Seq<char>>
    decreases groups.len(),
{
    if groups.len() == 0 {
        None
    } else if groups[0].id@ == group_id {
        Some(groups[0].name@)
    } else {
        group_name_of(groups.skip(1), group_id)
    }
}

/// The URLs a run configuration selects: every active URL, the first so
/// many of them, the active URLs of a named group, or one explicit URL.
pub open spec fn select_urls_spec(
    config: UrlConfig,
    urls: Seq<SavedUrl>,
    groups: Seq<UrlGroup>,
) -> Result<Seq<Seq<char>>, UrlSelectError> {
    match config {
        UrlConfig::All => Ok(active_urls(urls)),
        UrlConfig::Amount { amount } => Ok(
            if active_urls(urls).len() <= amount {
                active_urls(urls)
            } else {
                active_urls(urls).take(amount as int)
            },
        ),
        UrlConfig::Group { group_id } => match group_name_of(groups, group_id@) {
            Some(name) => Ok(active_urls_in_group(urls, name)),
            None => Err(UrlSelectError::GroupNotFound),
        },
        UrlConfig::Single { url } => Ok(seq![url@]),
    }
}

fn collect_active(urls: &Vec<SavedUrl>) -> (r: Vec<String>)
    ensures
        string_views(r@) == active_urls(urls@),
{
    let ghost full = urls@;
    let mut r: Vec<String> = Vec::new();
    let mut i: usize = 0;
    proof {
        assert(full.skip(0) =~= full);
        assert(string_views(r@) + active_urls(full) =~= active_urls(full));
    }
    while i < urls.len()
        invariant
            i <= urls@.len(),
            full == urls@,
            string_views(r@) + active_urls(full.skip(i as int)) == active_urls(full),
        decreases urls@.len() - i,
    {
        proof {
            assert(full.skip(i as int)[0] == full[i as int]);
            assert(full.skip(i as int).skip(1) =~= full.skip(i + 1));
        }
        let ghost before = r@;
        let keep = match urls[i].status {
            UrlStatus::Active => true,
            _ => false,
        };
        if keep {
            r.push(urls[i].url.clone());
        }
        i = i + 1;
        proof {
            if full[i - 1].status is Active {
                assert(string_views(r@) =~= string_views(before).push(full[i - 1].url@));
            } else {
                assert(string_views(r@) =~= string_views(before));
            }
            assert(string_views(r@) + active_urls(full.skip(i as int)) =~= active_urls(full));
        }
    }
    proof {
        assert(active_urls(full.skip(i as int)) =~= Seq::<Seq<char>>::empty());
        assert(string_views(r@) =~= active_urls(full));
    }
    r
}

fn collect_active_in_group(urls: &Vec<SavedUrl>, group: &str) -> (r: Vec<String>)
    ensures
        string_views(r@) == active_urls_in_group(urls@, group@),
{
    let ghost full = urls@;
    let mut r: Vec<String> = Vec::new();
    let mut i: usize = 0;
    proof {
        assert(full.skip(0) =~= full);
        assert(string_views(r@) + active_urls_in_group(full, group@) =~= active_urls_in_group(
            full,
            group@,
        ));
    }
    while i < urls.len()
        invariant
            i <= urls@.len(),
            full == urls@,
            string_views(r@) + active_urls_in_group(full.skip(i as int), group@)
                == active_urls_in_group(full, group@),
        decreases urls@.len() - i,
    {
        proof {
            assert(full.skip(i as int)[0] == full[i as int]);
            assert(full.skip(i as int).skip(1) =~= full.skip(i + 1));
        }
        let ghost before = r@;
        let keep = match urls[i].status {
            UrlStatus::Active => match &urls[i].group {
                Some(g) => str_eq(g.as_str(), group),
                None => false,
            },
            _ => false,
        };
        if keep {
            r.push(urls[i].url.clone());
        }
        i = i + 1;
        proof {
            if full[i - 1].status is Active && (match full[i - 1].group {
                Some(g) => g@ == group@,
                None => false,
            }) {
                assert(string_views(r@) =~= string_views(before).push(full[i - 1].url@));
            } else {
                assert(string_views(r@) =~= string_views(before));
            }
            assert(string_views(r@) + active_urls_in_group(full.skip(i as int), group@)
                =~= active_urls_in_group(full, group@));
        }
    }
    proof {
        assert(active_urls_in_group(full.skip(i as int), group@) =~= Seq::<Seq<char>>::empty());
        assert(string_views(r@) =~= active_urls_in_group(full, group@));
    }
    r
}

fn find_group_name<'a>(groups: &'a Vec<UrlGroup>, group_id: &str) -> (r: Option<&'a String>)
    ensures
        match r {
            Some(name) => group_name_of(groups@, group_id@) == Some(name@),
            None => group_name_of(groups@, group_id@) is None,
        },
{
    let mut i: usize = 0;
    proof {
        assert(groups@.skip(0) =~= groups@);
    }
    while i < groups.len()
        invariant
            i <= groups@.len(),
            group_name_of(groups@, group_id@) == group_name_of(groups@.skip(i as int), group_id@),
        decreases groups@.len() - i,
    {
        proof {
            assert(groups@.skip(i as int)[0] == groups@[i as int]);
        }
        if str_eq(groups[i].id.as_str(), group_id) {
            return Some(&groups[i].name);
        }
        proof {
            assert(groups@.skip(i as int).skip(1) =~= groups@.skip(i + 1));
        }
        i = i + 1;
    }
    None
}

/// The URLs a run covers, per the configuration: all active saved URLs,
/// the first so many, a group's active URLs — failing when the group id
/// is unknown — or one explicit URL.
pub fn select_urls(config: &UrlConfig, urls: &Vec<SavedUrl>, groups: &Vec<UrlGroup>) -> (r: Result<
    Vec<String>,
    UrlSelectError,
>)
    ensures
        match r {
            Ok(v) => select_urls_spec(*config, urls@, groups@) == Ok::<_, UrlSelectError>(
                string_views(v@),
            ),
            Err(e) => select_urls_spec(*config, urls@, groups@) == Err::<Seq<Seq<char>>, _>(e),
        },
{
    match config {
        UrlConfig::All => Ok(collect_active(urls)),
        UrlConfig::Amount { amount } => {
            let mut v = collect_active(urls);
            let n = *amount as usize;
            if v.len() > n {
                v.truncate(n);
                proof {
                    assert(string_views(v@) =~= active_urls(urls@).take(n as int));
                }
            }
            Ok(v)
        },
        UrlConfig::Group { group_id } => match find_group_name(groups, group_id.as_str()) {
            Some(name) => {
                let name_owned = name.clone();
                Ok(collect_active_in_group(urls, name_owned.as_str()))
            },
            None => Err(UrlSelectError::GroupNotFound),
        },
        UrlConfig::Single { url } => {
            let mut v: Vec<String> = Vec::new();
            v.push(url.clone());
            proof {
                assert(string_views(v@) =~= seq![url@]);
            }
            Ok(v)
        },
    }
}

} // verus!
