//! The plain data shapes the automation run is driven by: requests,
//! saved URLs and groups, recordings, and the run status.  Key-value
//! collections are held as vectors of pairs so their contents stay fully
//! visible to the contracts.

use vstd::prelude::*;

verus! {

/// A request to run automation over explicit URLs.
pub struct AutomationRequest {
    pub profile: String,
    pub urls: Vec<String>,
    pub headless: bool,
    pub delay: Option<u64>,
}

/// A request to run automation from the dashboard, naming a profile and a
/// URL selection.
pub struct DashboardAutomationRequest {
    pub profile_id: String,
    pub url_config: UrlConfig,
    pub mode: String,
}

/// Which URLs a dashboard run covers.
pub enum UrlConfig {
    All,
    Amount { amount: u32 },
    Group { group_id: String },
    Single { url: String },
}

/// The lifecycle state of a saved URL.
#[derive(Clone, Copy, Debug, PartialEq, Eq, Structural)]
pub enum UrlStatus {
    Active,
    Inactive,
    Testing,
    Failed,
}

impl Default for UrlStatus {
    /// A saved URL starts out active.
    fn default() -> (r: Self)
        ensures
            r == UrlStatus::Active,
    {
        UrlStatus::Active
    }
}

impl UrlStatus {
    /// The status's wire name.
    pub fn label(&self) -> (r: &'static str)
        ensures
            self is Active ==> r@ == "active"@,
            self is Inactive ==> r@ == "inactive"@,
            self is Testing ==> r@ == "testing"@,
            self is Failed ==> r@ == "failed"@,
    {
        match self {
            UrlStatus::Active => "active",
            UrlStatus::Inactive => "inactive",
            UrlStatus::Testing => "testing",
            UrlStatus::Failed => "failed",
        }
    }
}

/// A URL kept for automation runs, as the run logic reads it.
pub struct SavedUrl {
    pub id: String,
    pub url: String,
    pub name: Option<String>,
    pub description: Option<String>,
    pub group: Option<String>,
    pub tags: Vec<String>,
    pub status: UrlStatus,
    pub test_count: u32,
}

/// A named group of saved URLs.
pub struct UrlGroup {
    pub id: String,
    pub name: String,
    pub description: Option<String>,
    pub color: String,
}

/// One kind of recorded user action.
#[derive(Clone, Copy, Debug, PartialEq, Eq, Structural)]
pub enum ActionType {
    Fill,
    Click,
    Select,
    Check,
    Submit,
    Navigate,
}

/// A stored recording's header.
pub struct Recording {
    pub id: String,
    pub name: String,
    pub url: Option<String>,
    pub description: Option<String>,
    pub group: Option<String>,
}

/// A request to create a profile.
pub struct CreateProfileRequest {
    pub name: String,
    pub data: Vec<(String, String)>,
}

/// A request to update a profile.
pub struct UpdateProfileRequest {
    pub name: Option<String>,
    pub data: Option<Vec<(String, String)>>,
}

/// A request to create a field mapping.
pub struct CreateMappingRequest {
    pub url: String,
    pub fields: Vec<(String, String)>,
}

/// A request to update a field mapping.
pub struct UpdateMappingRequest {
    pub url: Option<String>,
    pub fields: Option<Vec<(String, String)>>,
}

/// A request to save a URL.
pub struct CreateUrlRequest {
    pub url: String,
    pub name: Option<String>,
    pub description: Option<String>,
    pub group: Option<String>,
    pub tags: Option<Vec<String>>,
    pub test_url: Option<bool>,
}

/// A request to update a saved URL.
pub struct UpdateUrlRequest {
    pub url: Option<String>,
    pub name: Option<String>,
    pub description: Option<String>,
    pub group: Option<String>,
    pub tags: Option<Vec<String>>,
    pub status: Option<UrlStatus>,
}

/// A request to create a URL group.
pub struct CreateGroupRequest {
    pub name: String,
    pub description: Option<String>,
    pub color: Option<String>,
}

/// One bulk operation over saved URLs.
#[derive(Clone, Copy, Debug, PartialEq, Eq, Structural)]
pub enum BulkOperation {
    Delete,
    UpdateGroup,
    UpdateStatus,
    Test,
    AddTags,
}

/// A request to store an API key for a service.
pub struct SaveApiKeyRequest {
    pub service: String,
    pub api_key: String,
}

} // verus!
