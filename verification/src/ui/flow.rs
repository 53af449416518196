//! The decisions of the background tasks, one step per outcome of the API:
//! what the outcome does to the interface and the data, and whether the
//! records are to be listed next. Sending the requests is left to the caller.
use vstd::prelude::*;
use crate::api::cache::{cached_after, duration_from_secs, duration_nanos, emptied, stored};
use crate::utils::formatting::{format_records, records_table};
use std::time::Duration;
use crate::api::error::{error_text, CloudflareError};
use crate::api::models::DnsRecord;
use crate::ui::data::{ips_match, AppData};
use crate::ui::events::{UiModel, UiState};
use crate::ui::state::{AppView, FormModel};
use crate::ui::tasks::{
    deleted_status, failed_status, load_error_text, loaded_status, loaded_status_text,
    refresh_failed_note, submitted_status, SubmitRequest,
};

verus! {

/// What a task does after a step: list the records, or nothing more.
#[derive(Debug, Clone, Copy, PartialEq, Eq, Structural)]
pub enum TaskStep {
    ListRecords,
    Done,
}

/// The start of the first load, once the zone lookup has answered, with the
/// records stored `elapsed` ago: the zone's name is taken; records still
/// fresh in the cache are shown at once and the API is spared, otherwise the
/// records are to be listed.
pub fn begin_load_after(
    data: &mut AppData,
    ui: &mut UiState,
    zone: Result<String, CloudflareError>,
    elapsed: Duration,
) -> (next: TaskStep)
    requires
        old(ui).wf(),
    ensures
        final(ui).wf(),
        final(data).spec_zone_name() == match zone {
            Ok(n) => n@,
            Err(_) => old(data).spec_zone_name(),
        },
        final(data).spec_cache() == old(data).spec_cache(),
        match cached_after(old(data).spec_cache(), duration_nanos(elapsed)) {
            Some(v) => {
                &&& next == TaskStep::Done
                &&& final(data).spec_records() == v
                &&& ips_match(v, final(data).spec_ips())
                &&& final(ui)@ == (UiModel {
                    status: loaded_status(v.len(), true),
                    records_display: records_table(v),
                    ..old(ui)@
                })
            },
            None => {
                &&& next == TaskStep::ListRecords
                &&& final(data).spec_records() == old(data).spec_records()
                &&& final(data).spec_ips() == old(data).spec_ips()
                &&& final(ui)@ == old(ui)@
            },
        },
{
    data.set_zone_name(zone);
    match data.cached_records_after(elapsed) {
        Some(records) => {
            let count = records.len();
            let table = format_records(records.as_slice());
            data.store_records(records, false);
            ui.status = loaded_status_text(count, true);
            ui.records_display = table;
            TaskStep::Done
        },
        None => TaskStep::ListRecords,
    }
}

/// The start of the first load, measured by the clock now: the zone's name
/// is taken; records still fresh at the time elapsed since they were stored
/// are shown at once, otherwise (an empty cache among them) the records are
/// to be listed.
pub fn begin_load(data: &mut AppData, ui: &mut UiState, zone: Result<String, CloudflareError>) -> (next:
    TaskStep)
    requires
        old(ui).wf(),
    ensures
        final(ui).wf(),
        final(data).spec_zone_name() == match zone {
            Ok(n) => n@,
            Err(_) => old(data).spec_zone_name(),
        },
        final(data).spec_cache() == old(data).spec_cache(),
        !old(data).spec_cache().stamped ==> next == TaskStep::ListRecords,
        exists|e: int|
            0 <= e && match #[trigger] cached_after(old(data).spec_cache(), e) {
                Some(v) => {
                    &&& next == TaskStep::Done
                    &&& final(data).spec_records() == v
                    &&& ips_match(v, final(data).spec_ips())
                    &&& final(ui)@ == (UiModel {
                        status: loaded_status(v.len(), true),
                        records_display: records_table(v),
                        ..old(ui)@
                    })
                },
                None => {
                    &&& next == TaskStep::ListRecords
                    &&& final(data).spec_records() == old(data).spec_records()
                    &&& final(data).spec_ips() == old(data).spec_ips()
                    &&& final(ui)@ == old(ui)@
                },
            },
{
    let elapsed = match data.cache_age() {
        Some(d) => d,
        None => duration_from_secs(0),
    };
    begin_load_after(data, ui, zone, elapsed)
}

/// The end of the first load: the listed records are shown and cached, with
/// their count on the status line; a failure is shown as an error, in the
/// record table's place too.
pub fn finish_load(data: &mut AppData, ui: &mut UiState, result: Result<Vec<DnsRecord>, CloudflareError>)
    requires
        old(ui).wf(),
    ensures
        final(ui).wf(),
        final(data).spec_zone_name() == old(data).spec_zone_name(),
        match result {
            Ok(v) => {
                &&& final(data).spec_records() == v@
                &&& ips_match(v@, final(data).spec_ips())
                &&& final(data).spec_cache() == stored(old(data).spec_cache(), v@)
                &&& final(ui)@ == (UiModel {
                    status: loaded_status(v@.len(), false),
                    records_display: records_table(v@),
                    ..old(ui)@
                })
            },
            Err(e) => {
                &&& final(data).spec_records() == old(data).spec_records()
                &&& final(data).spec_ips() == old(data).spec_ips()
                &&& final(data).spec_cache() == old(data).spec_cache()
                &&& final(ui)@ == (UiModel {
                    status: "Error: "@ + error_text(e),
                    records_display: "Error: "@ + error_text(e),
                    ..old(ui)@
                })
            },
        },
{
    match result {
        Ok(records) => {
            let count = records.len();
            ui.records_display = format_records(records.as_slice());
            data.store_records(records, true);
            ui.status = loaded_status_text(count, false);
        },
        Err(e) => {
            ui.status = load_error_text(&e);
            ui.records_display = load_error_text(&e);
        },
    }
}

/// The start of a reload: the cache is dropped, so the records are listed
/// from the API whatever the cache held.
pub fn begin_refresh(data: &mut AppData) -> (next: TaskStep)
    ensures
        next == TaskStep::ListRecords,
        final(data).spec_cache() == emptied(old(data).spec_cache()),
        final(data).spec_records() == old(data).spec_records(),
        final(data).spec_ips() == old(data).spec_ips(),
        final(data).spec_zone_name() == old(data).spec_zone_name(),
{
    data.invalidate_cache();
    TaskStep::ListRecords
}

/// The end of a reload: the listed records are shown and cached, with their
/// count on the status line; a failure is shown as an error on the status
/// line only.
pub fn finish_refresh(data: &mut AppData, ui: &mut UiState, result: Result<Vec<DnsRecord>, CloudflareError>)
    requires
        old(ui).wf(),
    ensures
        final(ui).wf(),
        final(data).spec_zone_name() == old(data).spec_zone_name(),
        match result {
            Ok(v) => {
                &&& final(data).spec_records() == v@
                &&& ips_match(v@, final(data).spec_ips())
                &&& final(data).spec_cache() == stored(old(data).spec_cache(), v@)
                &&& final(ui)@ == (UiModel {
                    status: loaded_status(v@.len(), false),
                    records_display: records_table(v@),
                    ..old(ui)@
                })
            },
            Err(e) => {
                &&& final(data).spec_records() == old(data).spec_records()
                &&& final(data).spec_ips() == old(data).spec_ips()
                &&& final(data).spec_cache() == old(data).spec_cache()
                &&& final(ui)@ == (UiModel { status: "Error: "@ + error_text(e), ..old(ui)@ })
            },
        },
{
    match result {
        Ok(records) => {
            let count = records.len();
            ui.records_display = format_records(records.as_slice());
            data.store_records(records, true);
            ui.status = loaded_status_text(count, false);
        },
        Err(e) => {
            ui.status = load_error_text(&e);
        },
    }
}

/// The API call that a submission makes: an update of the record when the
/// submission names one, a creation otherwise.
pub enum SubmitCall {
    Create(DnsRecord),
    Update(DnsRecord),
}

/// The call for a submission, with the record it sends.
pub fn submit_call(request: &SubmitRequest) -> (c: SubmitCall)
    ensures
        match c {
            SubmitCall::Create(r) => !request.spec_is_update() && r == request.spec_record(),
            SubmitCall::Update(r) => request.spec_is_update() && r == request.spec_record(),
        },
{
    let record = request.to_record();
    if request.is_update() {
        SubmitCall::Update(record)
    } else {
        SubmitCall::Create(record)
    }
}

/// The answer to a deletion: on success the cache is dropped, the list comes
/// back with the deletion reported, and the records are to be listed again;
/// on failure the error is reported and nothing more is done.
pub fn after_delete(
    data: &mut AppData,
    ui: &mut UiState,
    result: Result<(), CloudflareError>,
    record_name: &str,
    record_type: &str,
) -> (next: TaskStep)
    requires
        old(ui).wf(),
    ensures
        final(ui).wf(),
        final(data).spec_records() == old(data).spec_records(),
        final(data).spec_ips() == old(data).spec_ips(),
        final(data).spec_zone_name() == old(data).spec_zone_name(),
        match result {
            Ok(_) => {
                &&& next == TaskStep::ListRecords
                &&& final(data).spec_cache() == emptied(old(data).spec_cache())
                &&& final(ui)@ == (UiModel {
                    status: deleted_status(record_name@, record_type@),
                    view: AppView::List,
                    is_deleting: false,
                    ..old(ui)@
                })
            },
            Err(e) => {
                &&& next == TaskStep::Done
                &&& final(data).spec_cache() == old(data).spec_cache()
                &&& final(ui)@ == (UiModel {
                    status: failed_status(e),
                    is_deleting: false,
                    ..old(ui)@
                })
            },
        },
{
    let ok = result.is_ok();
    if ok {
        data.invalidate_cache();
    }
    ui.finish_delete(&result, record_name, record_type);
    if ok {
        TaskStep::ListRecords
    } else {
        TaskStep::Done
    }
}

/// The list after a deletion: the records are shown and cached; when the
/// listing fails the deletion is still reported, with the note that the
/// list could not be reloaded.
pub fn after_delete_listing(
    data: &mut AppData,
    ui: &mut UiState,
    result: Result<Vec<DnsRecord>, CloudflareError>,
    record_name: &str,
    record_type: &str,
)
    requires
        old(ui).wf(),
    ensures
        final(ui).wf(),
        final(data).spec_zone_name() == old(data).spec_zone_name(),
        match result {
            Ok(v) => {
                &&& final(data).spec_records() == v@
                &&& ips_match(v@, final(data).spec_ips())
                &&& final(data).spec_cache() == stored(old(data).spec_cache(), v@)
                &&& final(ui)@ == (UiModel { records_display: records_table(v@), ..old(ui)@ })
            },
            Err(_) => {
                &&& final(data).spec_records() == old(data).spec_records()
                &&& final(data).spec_ips() == old(data).spec_ips()
                &&& final(data).spec_cache() == old(data).spec_cache()
                &&& final(ui)@ == (UiModel {
                    status: deleted_status(record_name@, record_type@) + refresh_failed_note(),
                    ..old(ui)@
                })
            },
        },
{
    match result {
        Ok(records) => {
            ui.records_display = format_records(records.as_slice());
            data.store_records(records, true);
        },
        Err(_) => ui.note_delete_refresh_failed(record_name, record_type),
    }
}

/// The answer to a creation or update: on success the list comes back with
/// the change reported and the name and address fields emptied, and the
/// records are to be listed again; on failure the error is reported and
/// nothing more is done.
pub fn after_submit(
    ui: &mut UiState,
    result: Result<DnsRecord, CloudflareError>,
    request: &SubmitRequest,
) -> (next: TaskStep)
    requires
        old(ui).wf(),
    ensures
        final(ui).wf(),
        match result {
            Ok(_) => {
                &&& next == TaskStep::ListRecords
                &&& final(ui)@ == (UiModel {
                    status: submitted_status(
                        request.spec_is_update(),
                        request.record_type@,
                        request.name@,
                    ),
                    view: AppView::List,
                    is_submitting: false,
                    form: FormModel { name: Seq::empty(), content: Seq::empty(), ..old(ui)@.form },
                    ..old(ui)@
                })
            },
            Err(e) => {
                &&& next == TaskStep::Done
                &&& final(ui)@ == (UiModel {
                    status: failed_status(e),
                    is_submitting: false,
                    ..old(ui)@
                })
            },
        },
{
    ui.finish_submit(&result, request);
    if result.is_ok() {
        TaskStep::ListRecords
    } else {
        TaskStep::Done
    }
}

/// The list after a creation or update: the records are shown, the cache is
/// left as it was; when the listing fails the change is still reported, with
/// the note that the list could not be reloaded.
pub fn after_submit_listing(
    data: &mut AppData,
    ui: &mut UiState,
    result: Result<Vec<DnsRecord>, CloudflareError>,
    request: &SubmitRequest,
)
    requires
        old(ui).wf(),
    ensures
        final(ui).wf(),
        final(data).spec_zone_name() == old(data).spec_zone_name(),
        final(data).spec_cache() == old(data).spec_cache(),
        match result {
            Ok(v) => {
                &&& final(data).spec_records() == v@
                &&& ips_match(v@, final(data).spec_ips())
                &&& final(ui)@ == (UiModel { records_display: records_table(v@), ..old(ui)@ })
            },
            Err(_) => {
                &&& final(data).spec_records() == old(data).spec_records()
                &&& final(data).spec_ips() == old(data).spec_ips()
                &&& final(ui)@ == (UiModel {
                    status: submitted_status(
                        request.spec_is_update(),
                        request.record_type@,
                        request.name@,
                    ) + refresh_failed_note(),
                    ..old(ui)@
                })
            },
        },
{
    match result {
        Ok(records) => {
            ui.records_display = format_records(records.as_slice());
            data.store_records(records, false);
        },
        Err(_) => ui.note_submit_refresh_failed(request),
    }
}

} // verus!
