//! Plain state of the terminal interface.
use vstd::prelude::*;

verus! {

/// The current view mode of the application.
#[derive(Debug, Clone, Copy, PartialEq, Eq, Structural)]
pub enum AppView {
    /// Main record list view
    List,
    /// Create new record form
    Create,
    /// Edit existing record form
    Edit,
    /// Delete confirmation dialog
    Delete,
    /// IP address selector
    IpSelect,
}

impl Default for AppView {
    fn default() -> (v: Self)
        ensures
            v == AppView::List,
    {
        AppView::List
    }
}

/// The number of record types that the type field cycles through.
pub const RECORD_TYPE_COUNT: usize = 7;

/// The record types that the form's type field cycles through, in order.
pub open spec fn record_type_name(i: int) -> Seq<char> {
    if i == 0 {
        "A"@
    } else if i == 1 {
        "AAAA"@
    } else if i == 2 {
        "CNAME"@
    } else if i == 3 {
        "MX"@
    } else if i == 4 {
        "TXT"@
    } else if i == 5 {
        "SRV"@
    } else {
        "CAA"@
    }
}

/// The `i`-th record type of the cycle.
pub fn record_type_at(i: usize) -> (s: &'static str)
    requires
        i < RECORD_TYPE_COUNT,
    ensures
        s@ == record_type_name(i as int),
{
    if i == 0 {
        "A"
    } else if i == 1 {
        "AAAA"
    } else if i == 2 {
        "CNAME"
    } else if i == 3 {
        "MX"
    } else if i == 4 {
        "TXT"
    } else if i == 5 {
        "SRV"
    } else {
        "CAA"
    }
}

/// The values of the create/edit form, as the user typed them.
#[derive(Debug, Clone)]
pub struct FormState {
    pub record_type: String,
    pub name: String,
    pub content: String,
    pub ttl: String,
    pub proxied: String,
}

/// The form's fields by their views.
#[verifier::ext_equal]
pub struct FormModel {
    pub record_type: Seq<char>,
    pub name: Seq<char>,
    pub content: Seq<char>,
    pub ttl: Seq<char>,
    pub proxied: Seq<char>,
}

impl View for FormState {
    type V = FormModel;

    open spec fn view(&self) -> FormModel {
        FormModel {
            record_type: self.record_type@,
            name: self.name@,
            content: self.content@,
            ttl: self.ttl@,
            proxied: self.proxied@,
        }
    }
}

/// The form of a new record: type A, empty name and address, automatic TTL, not proxied.
pub open spec fn blank_form() -> FormModel {
    FormModel { record_type: "A"@, name: Seq::empty(), content: Seq::empty(), ttl: "1"@, proxied: "false"@ }
}

impl Default for FormState {
    fn default() -> (f: Self)
        ensures
            f@ == blank_form(),
    {
        FormState {
            record_type: String::from_str("A"),
            name: String::new(),
            content: String::new(),
            ttl: String::from_str("1"),
            proxied: String::from_str("false"),
        }
    }
}

} // verus!
