//! The key handling of the terminal interface: what each key does to the
//! interface's state, and which background work it starts.
//!
//! The interface hands every key to five handlers in turn (global keys, list
//! keys, delete-confirmation keys, IP-selector keys, form keys); each sees the
//! state that the handlers before it left.
use vstd::prelude::*;
use crate::api::models::DnsRecord;
use crate::ui::state::{
    blank_form, record_type_at, record_type_name, AppView, FormModel, FormState,
    RECORD_TYPE_COUNT,
};
use crate::ui::tasks::{fill_form_from_record, spec_editing_id, spec_filled_form};
use crate::utils::text::{parse_i64, parse_i64_spec, str_equal};

verus! {

/// A key of the keyboard, as far as the interface tells keys apart.
#[derive(Debug, Clone, Copy, PartialEq, Eq, Structural)]
pub enum KeyCode {
    Char(char),
    Up,
    Down,
    Enter,
    Esc,
    Tab,
    BackTab,
    Other,
}

/// A key event: the key, and whether it is the key's release.
#[derive(Debug, Clone, Copy, PartialEq, Eq, Structural)]
pub struct KeyEvent {
    pub code: KeyCode,
    pub release: bool,
}

/// Everything that the interface's screens and handlers read and write.
pub struct UiState {
    pub view: AppView,
    pub should_exit: bool,
    /// Focused form field: 0 type, 1 name, 2 address, 3 TTL, 4 proxied, 5 submit
    pub form_focus: i32,
    pub form: FormState,
    pub is_submitting: bool,
    /// Empty while a new record is being created
    pub editing_record_id: String,
    pub ip_sel_idx: usize,
    pub list_sel_idx: usize,
    pub is_deleting: bool,
    pub status: String,
    /// The records as a table, or the error of the last load; kept up to
    /// date by the loading tasks
    pub records_display: String,
}

/// The interface state by its views.
#[verifier::ext_equal]
pub struct UiModel {
    pub view: AppView,
    pub should_exit: bool,
    pub form_focus: int,
    pub form: FormModel,
    pub is_submitting: bool,
    pub editing_record_id: Seq<char>,
    pub ip_sel_idx: int,
    pub list_sel_idx: int,
    pub is_deleting: bool,
    pub status: Seq<char>,
    pub records_display: Seq<char>,
}

impl View for UiState {
    type V = UiModel;

    open spec fn view(&self) -> UiModel {
        UiModel {
            view: self.view,
            should_exit: self.should_exit,
            form_focus: self.form_focus as int,
            form: self.form@,
            is_submitting: self.is_submitting,
            editing_record_id: self.editing_record_id@,
            ip_sel_idx: self.ip_sel_idx as int,
            list_sel_idx: self.list_sel_idx as int,
            is_deleting: self.is_deleting,
            status: self.status@,
            records_display: self.records_display@,
        }
    }
}

/// The background work that a key starts.
pub enum UiAction {
    Nothing,
    /// Reload the records from the API
    Refresh,
    /// Delete the record with this id
    Delete { record_id: String, record_name: String, record_type: String },
    /// Create (empty id) or update (non-empty id) a record
    Submit {
        record_id: String,
        record_type: String,
        name: String,
        content: String,
        ttl: i64,
        proxied: bool,
    },
}

/// A started piece of work by its views.
pub enum ActionModel {
    Nothing,
    Refresh,
    Delete { record_id: Seq<char>, record_name: Seq<char>, record_type: Seq<char> },
    Submit {
        record_id: Seq<char>,
        record_type: Seq<char>,
        name: Seq<char>,
        content: Seq<char>,
        ttl: int,
        proxied: bool,
    },
}

impl View for UiAction {
    type V = ActionModel;

    open spec fn view(&self) -> ActionModel {
        match self {
            UiAction::Nothing => ActionModel::Nothing,
            UiAction::Refresh => ActionModel::Refresh,
            UiAction::Delete { record_id, record_name, record_type } => ActionModel::Delete {
                record_id: record_id@,
                record_name: record_name@,
                record_type: record_type@,
            },
            UiAction::Submit { record_id, record_type, name, content, ttl, proxied } =>
                ActionModel::Submit {
                record_id: record_id@,
                record_type: record_type@,
                name: name@,
                content: content@,
                ttl: *ttl as int,
                proxied: *proxied,
            },
        }
    }
}

/// The state in which the interface starts: the record list, nothing
/// selected or in progress, a blank form.
pub open spec fn initial_model() -> UiModel {
    UiModel {
        view: AppView::List,
        should_exit: false,
        form_focus: 0,
        form: blank_form(),
        is_submitting: false,
        editing_record_id: Seq::empty(),
        ip_sel_idx: 0,
        list_sel_idx: 0,
        is_deleting: false,
        status: "Initializing..."@,
        records_display: "Loading DNS records..."@,
    }
}

impl UiState {
    /// The focused form field is one of the six fields.
    pub open spec fn wf(&self) -> bool {
        0 <= self.form_focus < 6
    }

    /// The state in which the interface starts.
    pub fn new() -> (s: UiState)
        ensures
            s@ == initial_model(),
            s.wf(),
    {
        UiState {
            view: AppView::List,
            should_exit: false,
            form_focus: 0,
            form: FormState::default(),
            is_submitting: false,
            editing_record_id: String::new(),
            ip_sel_idx: 0,
            list_sel_idx: 0,
            is_deleting: false,
            status: String::from_str("Initializing..."),
            records_display: String::from_str("Loading DNS records..."),
        }
    }
}

/// `k` is the character key `lower` or `upper`.
pub open spec fn is_char_key(k: KeyCode, lower: char, upper: char) -> bool {
    k == KeyCode::Char(lower) || k == KeyCode::Char(upper)
}

/// The form view that the IP selector returns to: creating when no record is
/// being edited, editing otherwise.
pub open spec fn form_view(s: UiModel) -> AppView {
    if s.editing_record_id.len() == 0 {
        AppView::Create
    } else {
        AppView::Edit
    }
}

/// A proxy flag's text reads "true", in any mix of upper and lower case.
pub open spec fn flag_on(p: Seq<char>) -> bool {
    &&& p.len() == 4
    &&& (p[0] == 't' || p[0] == 'T')
    &&& (p[1] == 'r' || p[1] == 'R')
    &&& (p[2] == 'u' || p[2] == 'U')
    &&& (p[3] == 'e' || p[3] == 'E')
}

/// The position of `t` in the cycle of record types, or 0 when it is not in it.
pub open spec fn type_index_from(t: Seq<char>, i: int) -> int
    decreases 7 - i,
{
    if i >= 7 {
        0
    } else if record_type_name(i) == t {
        i
    } else {
        type_index_from(t, i + 1)
    }
}

/// The record type that follows `t` in the cycle (A after an unknown type's position 0).
pub open spec fn next_record_type(t: Seq<char>) -> Seq<char> {
    record_type_name((type_index_from(t, 0) + 1) % 7)
}

/// The TTL that a submission sends: the form's TTL as a number, automatic (1)
/// when it is not one.
pub open spec fn submitted_ttl(t: Seq<char>) -> int {
    match parse_i64_spec(t) {
        Some(v) => v,
        None => 1,
    }
}

/// The status shown when editing of `rec` begins.
pub open spec fn editing_status(rec: DnsRecord) -> Seq<char> {
    "Editing "@ + rec.name@ + " ("@ + rec.record_type@ + ") — Esc to cancel"@
}

/// Global keys: Q quits and C opens a blank create form, both only from the list.
pub open spec fn global_step(s: UiModel, key: KeyEvent) -> UiModel {
    if key.release {
        s
    } else {
        let s1 = if is_char_key(key.code, 'q', 'Q') && s.view == AppView::List {
            UiModel { should_exit: true, ..s }
        } else {
            s
        };
        if is_char_key(key.code, 'c', 'C') && s1.view == AppView::List {
            UiModel {
                view: AppView::Create,
                editing_record_id: Seq::empty(),
                form_focus: 0,
                form: blank_form(),
                ..s1
            }
        } else {
            s1
        }
    }
}

/// List keys: arrows move the selection round the list, R or L reloads, D
/// asks to delete, E edits the selected record.
pub open spec fn list_step(
    s: UiModel,
    key: KeyEvent,
    records: Seq<DnsRecord>,
    domain_suffix: Seq<char>,
) -> (UiModel, ActionModel) {
    let n = records.len() as int;
    let i = s.list_sel_idx;
    if key.release || s.view != AppView::List {
        (s, ActionModel::Nothing)
    } else if key.code == KeyCode::Up {
        if n > 0 {
            (UiModel { list_sel_idx: if i > 0 { i - 1 } else { n - 1 }, ..s }, ActionModel::Nothing)
        } else {
            (s, ActionModel::Nothing)
        }
    } else if key.code == KeyCode::Down {
        if n > 0 {
            (UiModel { list_sel_idx: if i < n - 1 { i + 1 } else { 0 }, ..s }, ActionModel::Nothing)
        } else {
            (s, ActionModel::Nothing)
        }
    } else if is_char_key(key.code, 'r', 'R') || is_char_key(key.code, 'l', 'L') {
        (UiModel { status: "Refreshing..."@, ..s }, ActionModel::Refresh)
    } else if is_char_key(key.code, 'd', 'D') {
        if n > 0 {
            (
                UiModel { view: AppView::Delete, status: "Enter: confirm | Esc: cancel"@, ..s },
                ActionModel::Nothing,
            )
        } else {
            (s, ActionModel::Nothing)
        }
    } else if is_char_key(key.code, 'e', 'E') {
        if i < n {
            let rec = records[i];
            (
                UiModel {
                    editing_record_id: spec_editing_id(rec),
                    form_focus: 0,
                    form: spec_filled_form(rec, domain_suffix),
                    view: AppView::Edit,
                    status: editing_status(rec),
                    ..s
                },
                ActionModel::Nothing,
            )
        } else {
            (s, ActionModel::Nothing)
        }
    } else {
        (s, ActionModel::Nothing)
    }
}

/// Delete-confirmation keys: Esc cancels, Enter deletes the selected record
/// unless a deletion is under way.
pub open spec fn delete_step(s: UiModel, key: KeyEvent, records: Seq<DnsRecord>) -> (
    UiModel,
    ActionModel,
) {
    if key.release || s.view != AppView::Delete {
        (s, ActionModel::Nothing)
    } else if key.code == KeyCode::Esc {
        (UiModel { view: AppView::List, status: "Cancelled"@, ..s }, ActionModel::Nothing)
    } else if key.code == KeyCode::Enter && !s.is_deleting && s.list_sel_idx < records.len() {
        let rec = records[s.list_sel_idx];
        (
            UiModel { is_deleting: true, ..s },
            ActionModel::Delete {
                record_id: spec_editing_id(rec),
                record_name: rec.name@,
                record_type: rec.record_type@,
            },
        )
    } else {
        (s, ActionModel::Nothing)
    }
}

/// IP-selector keys: arrows move round the known addresses and the
/// new-address entry, Enter takes the selection into the form, Esc goes back.
pub open spec fn ip_step(s: UiModel, key: KeyEvent, ips: Seq<String>) -> UiModel {
    let len = ips.len() + 1;
    let i = s.ip_sel_idx;
    if key.release || s.view != AppView::IpSelect {
        s
    } else if key.code == KeyCode::Esc {
        UiModel { view: form_view(s), ..s }
    } else if key.code == KeyCode::Up {
        UiModel { ip_sel_idx: if i > 0 { i - 1 } else { len - 1 }, ..s }
    } else if key.code == KeyCode::Down {
        UiModel { ip_sel_idx: if i < len - 1 { i + 1 } else { 0 }, ..s }
    } else if key.code == KeyCode::Enter {
        if i < ips.len() {
            UiModel {
                form: FormModel { content: ips[i]@, ..s.form },
                status: "Selected: "@ + ips[i]@,
                view: form_view(s),
                form_focus: 2,
                ..s
            }
        } else {
            UiModel {
                form: FormModel { content: Seq::empty(), ..s.form },
                status: "Type a new IP"@,
                view: form_view(s),
                form_focus: 2,
                ..s
            }
        }
    } else {
        s
    }
}

/// Form keys: Esc cancels, arrows and Tab move round the six fields, Enter on
/// the submit field submits once, Space cycles the type, toggles the proxy
/// flag, or opens the IP selector.
pub open spec fn form_step(s: UiModel, key: KeyEvent) -> (UiModel, ActionModel) {
    let f = s.form_focus;
    if key.release || !(s.view == AppView::Create || s.view == AppView::Edit) {
        (s, ActionModel::Nothing)
    } else if key.code == KeyCode::Esc {
        (UiModel { view: AppView::List, status: "Cancelled"@, ..s }, ActionModel::Nothing)
    } else if key.code == KeyCode::Up || key.code == KeyCode::BackTab {
        (UiModel { form_focus: (f + 5) % 6, ..s }, ActionModel::Nothing)
    } else if key.code == KeyCode::Down || key.code == KeyCode::Tab {
        (UiModel { form_focus: (f + 1) % 6, ..s }, ActionModel::Nothing)
    } else if key.code == KeyCode::Enter && f == 5 && !s.is_submitting {
        (
            UiModel { is_submitting: true, ..s },
            ActionModel::Submit {
                record_id: s.editing_record_id,
                record_type: s.form.record_type,
                name: s.form.name,
                content: s.form.content,
                ttl: submitted_ttl(s.form.ttl),
                proxied: flag_on(s.form.proxied),
            },
        )
    } else if key.code == KeyCode::Char(' ') && f == 0 {
        (
            UiModel {
                form: FormModel { record_type: next_record_type(s.form.record_type), ..s.form },
                ..s
            },
            ActionModel::Nothing,
        )
    } else if key.code == KeyCode::Char(' ') && f == 4 {
        (
            UiModel {
                form: FormModel {
                    proxied: if flag_on(s.form.proxied) {
                        "false"@
                    } else {
                        "true"@
                    },
                    ..s.form
                },
                ..s
            },
            ActionModel::Nothing,
        )
    } else if key.code == KeyCode::Char(' ') && f == 2 {
        (UiModel { view: AppView::IpSelect, ip_sel_idx: 0, ..s }, ActionModel::Nothing)
    } else {
        (s, ActionModel::Nothing)
    }
}

/// What one key does: the five handlers in turn, and the work that one of
/// them started.
pub open spec fn key_step(
    s: UiModel,
    key: KeyEvent,
    records: Seq<DnsRecord>,
    ips: Seq<String>,
    domain_suffix: Seq<char>,
) -> (UiModel, ActionModel) {
    let s1 = global_step(s, key);
    let r2 = list_step(s1, key, records, domain_suffix);
    let r3 = delete_step(r2.0, key, records);
    let s4 = ip_step(r3.0, key, ips);
    let r5 = form_step(s4, key);
    (
        r5.0,
        if !(r2.1 is Nothing) {
            r2.1
        } else if !(r3.1 is Nothing) {
            r3.1
        } else {
            r5.1
        },
    )
}


/// Whether a proxy flag's text reads "true", in any case.
pub fn is_flag_on(p: &str) -> (r: bool)
    ensures
        r == flag_on(p@),
{
    if p.unicode_len() != 4 {
        return false;
    }
    let c0 = p.get_char(0);
    let c1 = p.get_char(1);
    let c2 = p.get_char(2);
    let c3 = p.get_char(3);
    (c0 == 't' || c0 == 'T') && (c1 == 'r' || c1 == 'R') && (c2 == 'u' || c2 == 'U') && (c3 == 'e'
        || c3 == 'E')
}

/// The record type that follows `t` in the cycle of record types.
pub fn cycle_record_type(t: &str) -> (r: &'static str)
    ensures
        r@ == next_record_type(t@),
{
    let mut pos: usize = 0;
    let mut found = false;
    let mut i: usize = 0;
    while i < RECORD_TYPE_COUNT
        invariant
            i <= RECORD_TYPE_COUNT,
            pos < RECORD_TYPE_COUNT,
            found ==> pos == type_index_from(t@, 0),
            !found ==> pos == 0 && type_index_from(t@, 0) == type_index_from(t@, i as int),
        decreases RECORD_TYPE_COUNT - i,
    {
        if !found && str_equal(record_type_at(i), t) {
            pos = i;
            found = true;
        }
        i = i + 1;
    }
    record_type_at((pos + 1) % RECORD_TYPE_COUNT)
}

/// The status shown when editing of `rec` begins.
fn editing_status_text(rec: &DnsRecord) -> (r: String)
    ensures
        r@ == editing_status(*rec),
{
    let mut st = String::from_str("Editing ");
    st.append(rec.name.as_str());
    st.append(" (");
    st.append(rec.record_type.as_str());
    st.append(") — Esc to cancel");
    st
}

/// The id of a record, or the empty text when it has none.
fn id_text(rec: &DnsRecord) -> (r: String)
    ensures
        r@ == spec_editing_id(*rec),
{
    match &rec.id {
        Some(id) => id.clone(),
        None => String::new(),
    }
}

impl UiState {
    /// Global keys: Q quits and C opens a blank create form, both only from the list.
    pub fn global_keys(&mut self, key: KeyEvent)
        requires
            old(self).wf(),
        ensures
            final(self)@ == global_step(old(self)@, key),
            final(self).wf(),
    {
        if key.release {
            return;
        }
        if (key.code == KeyCode::Char('q') || key.code == KeyCode::Char('Q')) && self.view
            == AppView::List {
            self.should_exit = true;
        }
        if (key.code == KeyCode::Char('c') || key.code == KeyCode::Char('C')) && self.view
            == AppView::List {
            self.view = AppView::Create;
            self.editing_record_id = String::new();
            self.form_focus = 0;
            self.form = FormState::default();
        }
    }

    /// List keys: arrows move the selection round the list, R or L reloads, D
    /// asks to delete, E edits the selected record.
    pub fn list_keys(&mut self, key: KeyEvent, records: &[DnsRecord], domain_suffix: &str) -> (a:
        UiAction)
        requires
            old(self).wf(),
        ensures
            (final(self)@, a@) == list_step(old(self)@, key, records@, domain_suffix@),
            final(self).wf(),
    {
        if key.release || self.view != AppView::List {
            return UiAction::Nothing;
        }
        let n = records.len();
        let i = self.list_sel_idx;
        if key.code == KeyCode::Up {
            if n > 0 {
                self.list_sel_idx = if i > 0 { i - 1 } else { n - 1 };
            }
            UiAction::Nothing
        } else if key.code == KeyCode::Down {
            if n > 0 {
                self.list_sel_idx = if i < n - 1 { i + 1 } else { 0 };
            }
            UiAction::Nothing
        } else if key.code == KeyCode::Char('r') || key.code == KeyCode::Char('R')
            || key.code == KeyCode::Char('l') || key.code == KeyCode::Char('L') {
            self.status = String::from_str("Refreshing...");
            UiAction::Refresh
        } else if key.code == KeyCode::Char('d') || key.code == KeyCode::Char('D') {
            if n > 0 {
                self.view = AppView::Delete;
                self.status = String::from_str("Enter: confirm | Esc: cancel");
            }
            UiAction::Nothing
        } else if key.code == KeyCode::Char('e') || key.code == KeyCode::Char('E') {
            if i < n {
                let rec = &records[i];
                let (form, id) = fill_form_from_record(rec, domain_suffix);
                self.editing_record_id = id;
                self.form_focus = 0;
                self.form = form;
                self.view = AppView::Edit;
                self.status = editing_status_text(rec);
            }
            UiAction::Nothing
        } else {
            UiAction::Nothing
        }
    }

    /// Delete-confirmation keys: Esc cancels, Enter deletes the selected
    /// record unless a deletion is under way.
    pub fn delete_keys(&mut self, key: KeyEvent, records: &[DnsRecord]) -> (a: UiAction)
        requires
            old(self).wf(),
        ensures
            (final(self)@, a@) == delete_step(old(self)@, key, records@),
            final(self).wf(),
    {
        if key.release || self.view != AppView::Delete {
            return UiAction::Nothing;
        }
        if key.code == KeyCode::Esc {
            self.view = AppView::List;
            self.status = String::from_str("Cancelled");
            UiAction::Nothing
        } else if key.code == KeyCode::Enter && !self.is_deleting && self.list_sel_idx
            < records.len() {
            let rec = &records[self.list_sel_idx];
            self.is_deleting = true;
            UiAction::Delete {
                record_id: id_text(rec),
                record_name: rec.name.clone(),
                record_type: rec.record_type.clone(),
            }
        } else {
            UiAction::Nothing
        }
    }

    /// IP-selector keys: arrows move round the known addresses and the
    /// new-address entry, Enter takes the selection into the form, Esc goes back.
    pub fn ip_keys(&mut self, key: KeyEvent, ips: &[String])
        requires
            old(self).wf(),
            ips@.len() < usize::MAX,
        ensures
            final(self)@ == ip_step(old(self)@, key, ips@),
            final(self).wf(),
    {
        if key.release || self.view != AppView::IpSelect {
            return;
        }
        let len = ips.len() + 1;
        let i = self.ip_sel_idx;
        let back = if self.editing_record_id.as_str().unicode_len() == 0 {
            AppView::Create
        } else {
            AppView::Edit
        };
        if key.code == KeyCode::Esc {
            self.view = back;
        } else if key.code == KeyCode::Up {
            self.ip_sel_idx = if i > 0 { i - 1 } else { len - 1 };
        } else if key.code == KeyCode::Down {
            self.ip_sel_idx = if i < len - 1 { i + 1 } else { 0 };
        } else if key.code == KeyCode::Enter {
            if i < ips.len() {
                self.form.content = ips[i].clone();
                let mut st = String::from_str("Selected: ");
                st.append(ips[i].as_str());
                self.status = st;
            } else {
                self.form.content = String::new();
                self.status = String::from_str("Type a new IP");
            }
            self.view = back;
            self.form_focus = 2;
        }
    }

    /// Form keys: Esc cancels, arrows and Tab move round the six fields,
    /// Enter on the submit field submits once, Space cycles the type, toggles
    /// the proxy flag, or opens the IP selector.
    pub fn form_keys(&mut self, key: KeyEvent) -> (a: UiAction)
        requires
            old(self).wf(),
        ensures
            (final(self)@, a@) == form_step(old(self)@, key),
            final(self).wf(),
    {
        if key.release || !(self.view == AppView::Create || self.view == AppView::Edit) {
            return UiAction::Nothing;
        }
        let f = self.form_focus;
        if key.code == KeyCode::Esc {
            self.view = AppView::List;
            self.status = String::from_str("Cancelled");
            UiAction::Nothing
        } else if key.code == KeyCode::Up || key.code == KeyCode::BackTab {
            self.form_focus = (f + 5) % 6;
            UiAction::Nothing
        } else if key.code == KeyCode::Down || key.code == KeyCode::Tab {
            self.form_focus = (f + 1) % 6;
            UiAction::Nothing
        } else if key.code == KeyCode::Enter && f == 5 && !self.is_submitting {
            self.is_submitting = true;
            let ttl: i64 = match parse_i64(self.form.ttl.as_str()) {
                Some(v) => v,
                None => 1,
            };
            UiAction::Submit {
                record_id: self.editing_record_id.clone(),
                record_type: self.form.record_type.clone(),
                name: self.form.name.clone(),
                content: self.form.content.clone(),
                ttl,
                proxied: is_flag_on(self.form.proxied.as_str()),
            }
        } else if key.code == KeyCode::Char(' ') && f == 0 {
            let next = cycle_record_type(self.form.record_type.as_str());
            self.form.record_type = String::from_str(next);
            UiAction::Nothing
        } else if key.code == KeyCode::Char(' ') && f == 4 {
            if is_flag_on(self.form.proxied.as_str()) {
                self.form.proxied = String::from_str("false");
            } else {
                self.form.proxied = String::from_str("true");
            }
            UiAction::Nothing
        } else if key.code == KeyCode::Char(' ') && f == 2 {
            self.view = AppView::IpSelect;
            self.ip_sel_idx = 0;
            UiAction::Nothing
        } else {
            UiAction::Nothing
        }
    }

    /// Handles one key: the five handlers in turn, each on the state the one
    /// before it left, and the work that one of them started.
    pub fn handle_key(
        &mut self,
        key: KeyEvent,
        records: &[DnsRecord],
        ips: &[String],
        domain_suffix: &str,
    ) -> (a: UiAction)
        requires
            old(self).wf(),
            ips@.len() < usize::MAX,
        ensures
            (final(self)@, a@) == key_step(old(self)@, key, records@, ips@, domain_suffix@),
            final(self).wf(),
    {
        self.global_keys(key);
        let a2 = self.list_keys(key, records, domain_suffix);
        let a3 = self.delete_keys(key, records);
        self.ip_keys(key, ips);
        let a5 = self.form_keys(key);
        match a2 {
            UiAction::Nothing => match a3 {
                UiAction::Nothing => a5,
                _ => a3,
            },
            _ => a2,
        }
    }
}

} // verus!
