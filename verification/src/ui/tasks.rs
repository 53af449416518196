//! What the background tasks decide: the form filled from a record, the record
//! that a submission sends, and the texts that each task's outcome shows.
use vstd::prelude::*;
use crate::api::error::{error_text, CloudflareError};
use crate::api::models::DnsRecord;
use crate::ui::events::UiState;
use crate::ui::state::{AppView, FormModel, FormState};
use crate::utils::formatting::{spec_strip_suffix, strip_domain_suffix};
use crate::utils::text::{decimal, int_decimal, push_decimal, push_int};

verus! {

/// The text of a proxy flag as the form holds it.
pub open spec fn flag_text(b: bool) -> Seq<char> {
    if b {
        "true"@
    } else {
        "false"@
    }
}

/// The form that editing `rec` starts from: the name without the zone's
/// suffix, the TTL written out (automatic when absent), the proxy flag as text.
pub open spec fn spec_filled_form(rec: DnsRecord, domain_suffix: Seq<char>) -> FormModel {
    FormModel {
        record_type: rec.record_type@,
        name: spec_strip_suffix(rec.name@, domain_suffix),
        content: rec.content@,
        ttl: int_decimal(
            match rec.ttl {
                Some(t) => t as int,
                None => 1,
            },
        ),
        proxied: flag_text(
            match rec.proxied {
                Some(p) => p,
                None => false,
            },
        ),
    }
}

/// The id that editing `rec` works on: its id, or nothing when it has none.
pub open spec fn spec_editing_id(rec: DnsRecord) -> Seq<char> {
    match rec.id {
        Some(id) => id@,
        None => Seq::empty(),
    }
}

/// Fills the form with the values of an existing record, for editing it,
/// and gives the id of the record being edited.
pub fn fill_form_from_record(rec: &DnsRecord, domain_suffix: &str) -> (r: (FormState, String))
    ensures
        r.0@ == spec_filled_form(*rec, domain_suffix@),
        r.1@ == spec_editing_id(*rec),
{
    let mut ttl = String::new();
    let t: i64 = match rec.ttl {
        Some(t) => t,
        None => 1,
    };
    push_int(&mut ttl, t);
    let proxied = match rec.proxied {
        Some(true) => String::from_str("true"),
        _ => String::from_str("false"),
    };
    let id = match &rec.id {
        Some(id) => id.clone(),
        None => String::new(),
    };
    let form = FormState {
        record_type: rec.record_type.clone(),
        name: strip_domain_suffix(rec.name.as_str(), domain_suffix),
        content: rec.content.clone(),
        ttl,
        proxied,
    };
    proof {
        assert(ttl@ =~= int_decimal(t as int));
    }
    (form, id)
}


/// The status after records were loaded: their count, and whether they came
/// from the cache.
pub open spec fn loaded_status(count: nat, cached: bool) -> Seq<char> {
    "Loaded "@ + decimal(count) + if cached {
        " DNS records (cached)"@
    } else {
        " DNS records"@
    }
}

/// The status after records were loaded.
pub fn loaded_status_text(count: usize, cached: bool) -> (s: String)
    ensures
        s@ == loaded_status(count as nat, cached),
{
    let mut s = String::from_str("Loaded ");
    push_decimal(&mut s, count as u64);
    if cached {
        s.append(" DNS records (cached)");
    } else {
        s.append(" DNS records");
    }
    s
}

/// The text shown when loading the records failed: `Error: {error}`.
pub fn load_error_text(err: &CloudflareError) -> (s: String)
    ensures
        s@ == "Error: "@ + error_text(*err),
{
    let mut s = String::from_str("Error: ");
    let e = err.to_string();
    s.append(e.as_str());
    s
}

/// A record to create or update, as the form submitted it.
pub struct SubmitRequest {
    /// Empty when a new record is created
    pub record_id: String,
    pub record_type: String,
    pub name: String,
    pub content: String,
    pub ttl: i64,
    pub proxied: bool,
}

impl SubmitRequest {
    /// A submission updates a record when it names one, and creates one otherwise.
    pub open spec fn spec_is_update(&self) -> bool {
        self.record_id@.len() > 0
    }

    /// The record that the submission sends: the id only for an update, the
    /// TTL and proxy flag always, no comment.
    pub open spec fn spec_record(&self) -> DnsRecord {
        DnsRecord {
            id: if self.spec_is_update() {
                Some(self.record_id)
            } else {
                None
            },
            record_type: self.record_type,
            name: self.name,
            content: self.content,
            ttl: Some(self.ttl),
            proxied: Some(self.proxied),
            comment: None,
        }
    }

    /// Whether the submission updates an existing record.
    pub fn is_update(&self) -> (r: bool)
        ensures
            r == self.spec_is_update(),
    {
        self.record_id.as_str().unicode_len() > 0
    }

    /// The record that the submission sends: the id only for an update, the
    /// TTL and proxy flag always, no comment.
    pub fn to_record(&self) -> (r: DnsRecord)
        ensures
            r.id == (if self.spec_is_update() {
                Some(self.record_id)
            } else {
                None::<String>
            }),
            r.record_type == self.record_type,
            r.name == self.name,
            r.content == self.content,
            r.ttl == Some(self.ttl),
            r.proxied == Some(self.proxied),
            r.comment.is_none(),
            r == self.spec_record(),
    {
        DnsRecord {
            id: if self.is_update() {
                Some(self.record_id.clone())
            } else {
                None
            },
            record_type: self.record_type.clone(),
            name: self.name.clone(),
            content: self.content.clone(),
            ttl: Some(self.ttl),
            proxied: Some(self.proxied),
            comment: None,
        }
    }
}

/// The status after a record was deleted.
pub open spec fn deleted_status(name: Seq<char>, record_type: Seq<char>) -> Seq<char> {
    "Deleted "@ + name + " ("@ + record_type + ")"@
}

/// The status after a record was created or updated.
pub open spec fn submitted_status(is_update: bool, record_type: Seq<char>, name: Seq<char>) -> Seq<
    char,
> {
    (if is_update {
        "Updated "@
    } else {
        "Created "@
    }) + record_type + " for "@ + name
}

/// The note added to a status when the reload after a change failed.
pub open spec fn refresh_failed_note() -> Seq<char> {
    ", but refresh failed — press R to reload"@
}

/// The status after a change was refused: `Failed: {error}`.
pub open spec fn failed_status(err: CloudflareError) -> Seq<char> {
    "Failed: "@ + error_text(err)
}

impl UiState {
    /// Takes the outcome of a deletion: on success the list comes back with
    /// the deletion reported, on failure the error is reported; either way
    /// the deletion is no longer under way.
    pub fn finish_delete(
        &mut self,
        result: &Result<(), CloudflareError>,
        record_name: &str,
        record_type: &str,
    )
        requires
            old(self).wf(),
        ensures
            final(self).wf(),
            !final(self).is_deleting,
            match result {
                Ok(_) => {
                    &&& final(self).status@ == deleted_status(record_name@, record_type@)
                    &&& final(self).view == AppView::List
                    &&& final(self)@ == (crate::ui::events::UiModel {
                        status: final(self).status@,
                        view: AppView::List,
                        is_deleting: false,
                        ..old(self)@
                    })
                },
                Err(e) => {
                    &&& final(self).status@ == failed_status(*e)
                    &&& final(self)@ == (crate::ui::events::UiModel {
                        status: final(self).status@,
                        is_deleting: false,
                        ..old(self)@
                    })
                },
            },
    {
        match result {
            Ok(_) => {
                let mut s = String::from_str("Deleted ");
                s.append(record_name);
                s.append(" (");
                s.append(record_type);
                s.append(")");
                self.status = s;
                self.view = AppView::List;
                self.is_deleting = false;
            },
            Err(e) => {
                let mut s = String::from_str("Failed: ");
                let t = e.to_string();
                s.append(t.as_str());
                self.status = s;
                self.is_deleting = false;
            },
        }
    }

    /// Takes the outcome of a submission: on success the list comes back
    /// with the change reported and the name and address fields emptied, on
    /// failure the error is reported; either way the submission is no longer
    /// under way.
    pub fn finish_submit(&mut self, result: &Result<DnsRecord, CloudflareError>, request: &SubmitRequest)
        requires
            old(self).wf(),
        ensures
            final(self).wf(),
            !final(self).is_submitting,
            match result {
                Ok(_) => {
                    &&& final(self).status@ == submitted_status(
                        request.spec_is_update(),
                        request.record_type@,
                        request.name@,
                    )
                    &&& final(self)@ == (crate::ui::events::UiModel {
                        status: final(self).status@,
                        view: AppView::List,
                        is_submitting: false,
                        form: FormModel { name: Seq::empty(), content: Seq::empty(), ..old(self)@.form },
                        ..old(self)@
                    })
                },
                Err(e) => {
                    &&& final(self).status@ == failed_status(*e)
                    &&& final(self)@ == (crate::ui::events::UiModel {
                        status: final(self).status@,
                        is_submitting: false,
                        ..old(self)@
                    })
                },
            },
    {
        match result {
            Ok(_) => {
                let mut s = if request.is_update() {
                    String::from_str("Updated ")
                } else {
                    String::from_str("Created ")
                };
                s.append(request.record_type.as_str());
                s.append(" for ");
                s.append(request.name.as_str());
                self.status = s;
                self.view = AppView::List;
                self.form.name = String::new();
                self.form.content = String::new();
                self.is_submitting = false;
            },
            Err(e) => {
                let mut s = String::from_str("Failed: ");
                let t = e.to_string();
                s.append(t.as_str());
                self.status = s;
                self.is_submitting = false;
            },
        }
    }

    /// The status after a deletion whose reload failed: the deletion
    /// reported, with the note that the list could not be reloaded.
    pub fn note_delete_refresh_failed(&mut self, record_name: &str, record_type: &str)
        requires
            old(self).wf(),
        ensures
            final(self).wf(),
            final(self)@ == (crate::ui::events::UiModel {
                status: deleted_status(record_name@, record_type@) + refresh_failed_note(),
                ..old(self)@
            }),
    {
        let mut s = String::from_str("Deleted ");
        s.append(record_name);
        s.append(" (");
        s.append(record_type);
        s.append(")");
        s.append(", but refresh failed — press R to reload");
        self.status = s;
    }

    /// The status after a creation or update whose reload failed: the change
    /// reported, with the note that the list could not be reloaded.
    pub fn note_submit_refresh_failed(&mut self, request: &SubmitRequest)
        requires
            old(self).wf(),
        ensures
            final(self).wf(),
            final(self)@ == (crate::ui::events::UiModel {
                status: submitted_status(
                    request.spec_is_update(),
                    request.record_type@,
                    request.name@,
                ) + refresh_failed_note(),
                ..old(self)@
            }),
    {
        let mut s = if request.is_update() {
            String::from_str("Updated ")
        } else {
            String::from_str("Created ")
        };
        s.append(request.record_type.as_str());
        s.append(" for ");
        s.append(request.name.as_str());
        s.append(", but refresh failed — press R to reload");
        self.status = s;
    }
}

} // verus!
