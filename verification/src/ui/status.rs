//! The status line: its messages, how each is rendered, which ones clear by
//! themselves, and which help text each view and field shows.
use vstd::prelude::*;
use crate::ui::state::AppView;
use crate::utils::text::{decimal, has_prefix, push_decimal, str_equal, str_starts_with};

verus! {

/// How long a status message stays.
#[derive(Debug, Clone, Copy, PartialEq, Eq, Structural)]
pub enum StatusType {
    /// Transient messages that should display briefly
    Transient,
    /// Persistent contextual help based on current view
    Contextual,
}

/// The form field that a help message is about.
#[derive(Debug, Clone, Copy, PartialEq, Eq, Structural)]
pub enum FormFieldContext {
    Type,
    Name,
    Content,
    Ttl,
    Proxied,
    Submit,
}

/// The views that have a fixed help text.
#[derive(Debug, Clone, Copy, PartialEq, Eq, Structural)]
pub enum ViewHelpContext {
    DeleteConfirmation,
    IpSelector,
}

/// All possible status messages.
#[derive(Debug, Clone)]
pub enum StatusMessage {
    /// Initial loading state
    Initializing,
    /// Loading DNS records
    LoadingRecords,
    /// Error message
    Error(String),
    /// Operation results (created, updated, deleted, etc.)
    OperationResult(String),
    /// View-specific contextual help
    ViewHelp(ViewHelpContext),
    /// Form field help
    FormFieldHelp {
        context: FormFieldContext,
        form_type: String,
        form_proxied: String,
        is_editing: bool,
    },
    /// Record list navigation help
    RecordListHelp { position: usize, total: usize, record_name: String },
    /// Empty list help
    EmptyListHelp,
}

/// A status message by the views of its texts.
pub enum StatusModel {
    Initializing,
    LoadingRecords,
    Error(Seq<char>),
    OperationResult(Seq<char>),
    ViewHelp(ViewHelpContext),
    FormFieldHelp {
        context: FormFieldContext,
        form_type: Seq<char>,
        form_proxied: Seq<char>,
        is_editing: bool,
    },
    RecordListHelp { position: int, total: int, record_name: Seq<char> },
    EmptyListHelp,
}

impl View for StatusMessage {
    type V = StatusModel;

    open spec fn view(&self) -> StatusModel {
        match self {
            StatusMessage::Initializing => StatusModel::Initializing,
            StatusMessage::LoadingRecords => StatusModel::LoadingRecords,
            StatusMessage::Error(m) => StatusModel::Error(m@),
            StatusMessage::OperationResult(m) => StatusModel::OperationResult(m@),
            StatusMessage::ViewHelp(c) => StatusModel::ViewHelp(*c),
            StatusMessage::FormFieldHelp { context, form_type, form_proxied, is_editing } =>
                StatusModel::FormFieldHelp {
                context: *context,
                form_type: form_type@,
                form_proxied: form_proxied@,
                is_editing: *is_editing,
            },
            StatusMessage::RecordListHelp { position, total, record_name } =>
                StatusModel::RecordListHelp {
                position: *position as int,
                total: *total as int,
                record_name: record_name@,
            },
            StatusMessage::EmptyListHelp => StatusModel::EmptyListHelp,
        }
    }
}

/// Errors, operation results and the loading messages are transient; help is contextual.
pub open spec fn spec_status_type(m: StatusModel) -> StatusType {
    match m {
        StatusModel::Error(_) | StatusModel::OperationResult(_) | StatusModel::Initializing
        | StatusModel::LoadingRecords => StatusType::Transient,
        _ => StatusType::Contextual,
    }
}

/// A status text that clears by itself: it begins with one of the words of
/// the transient messages.
pub open spec fn transient_text(s: Seq<char>) -> bool {
    ||| has_prefix(s, "Error:"@)
    ||| has_prefix(s, "Refreshing..."@)
    ||| has_prefix(s, "Created"@)
    ||| has_prefix(s, "Updated"@)
    ||| has_prefix(s, "Deleted"@)
    ||| has_prefix(s, "Failed"@)
    ||| has_prefix(s, "Selected"@)
    ||| has_prefix(s, "Cancelled"@)
}

/// The text of a status message.
pub open spec fn render_text(m: StatusModel) -> Seq<char> {
    match m {
        StatusModel::Initializing => "Initializing..."@,
        StatusModel::LoadingRecords => "Loading DNS records..."@,
        StatusModel::Error(msg) => "Error: "@ + msg,
        StatusModel::OperationResult(msg) => msg,
        StatusModel::ViewHelp(ViewHelpContext::DeleteConfirmation) =>
            "Enter: confirm deletion | Esc: cancel"@,
        StatusModel::ViewHelp(ViewHelpContext::IpSelector) =>
            "↑↓: navigate | Enter: select IP | Esc: back to form"@,
        StatusModel::FormFieldHelp { context, form_type, form_proxied, is_editing } => match context {
            FormFieldContext::Type => "Field 1/6 — Type: "@ + form_type + " | Space: cycle types"@,
            FormFieldContext::Name => "Field 2/6 — Name: e.g. www (subdomain)"@,
            FormFieldContext::Content =>
                "Field 3/6 — IP Address | Space: open selector | Type: enter IP"@,
            FormFieldContext::Ttl => "Field 4/6 — TTL: seconds (1 = auto)"@,
            FormFieldContext::Proxied => "Field 5/6 — Proxied: "@ + (if form_proxied == "true"@ {
                "Orange cloud ON"@
            } else {
                "Grey cloud OFF"@
            }),
            FormFieldContext::Submit => "Field 6/6 — Press Enter to "@ + (if is_editing {
                "Save"@
            } else {
                "Create"@
            }) + " record"@,
        },
        StatusModel::RecordListHelp { position, total, record_name } => decimal(position as nat)
            + " of "@ + decimal(total as nat) + " — "@ + record_name
            + " | E: edit | D: delete | R: refresh | C: create | Q: quit"@,
        StatusModel::EmptyListHelp => "No records | C: create your first DNS record | Q: quit"@,
    }
}

/// The form field that focus position `f` stands for; past the last field, the name.
pub open spec fn focus_context(f: int) -> FormFieldContext {
    if f == 0 {
        FormFieldContext::Type
    } else if f == 1 {
        FormFieldContext::Name
    } else if f == 2 {
        FormFieldContext::Content
    } else if f == 3 {
        FormFieldContext::Ttl
    } else if f == 4 {
        FormFieldContext::Proxied
    } else if f == 5 {
        FormFieldContext::Submit
    } else {
        FormFieldContext::Name
    }
}

/// The help that the current view shows: the view's help, the focused field's
/// help, the selected record's position, or the empty-list help.
pub open spec fn contextual_status(
    view: AppView,
    form_focus: int,
    form_type: Seq<char>,
    form_proxied: Seq<char>,
    is_editing: bool,
    record_count: int,
    selected_record_idx: int,
    selected_record_name: Option<Seq<char>>,
) -> StatusModel {
    match view {
        AppView::Delete => StatusModel::ViewHelp(ViewHelpContext::DeleteConfirmation),
        AppView::IpSelect => StatusModel::ViewHelp(ViewHelpContext::IpSelector),
        AppView::Create | AppView::Edit => StatusModel::FormFieldHelp {
            context: focus_context(form_focus),
            form_type,
            form_proxied,
            is_editing,
        },
        AppView::List => if record_count > 0 && selected_record_idx < record_count {
            StatusModel::RecordListHelp {
                position: selected_record_idx + 1,
                total: record_count,
                record_name: match selected_record_name {
                    Some(n) => n,
                    None => "Unknown"@,
                },
            }
        } else {
            StatusModel::EmptyListHelp
        },
    }
}

impl StatusMessage {
    /// Whether this status is transient (auto-clearing) or contextual.
    pub fn status_type(&self) -> (t: StatusType)
        ensures
            t == spec_status_type(self@),
    {
        match self {
            StatusMessage::Error(_)
            | StatusMessage::OperationResult(_)
            | StatusMessage::Initializing
            | StatusMessage::LoadingRecords => StatusType::Transient,
            _ => StatusType::Contextual,
        }
    }

    /// Whether a status text represents a transient message.
    pub fn is_transient(status_str: &str) -> (r: bool)
        ensures
            r == transient_text(status_str@),
    {
        str_starts_with(status_str, "Error:") || str_starts_with(status_str, "Refreshing...")
            || str_starts_with(status_str, "Created") || str_starts_with(status_str, "Updated")
            || str_starts_with(status_str, "Deleted") || str_starts_with(status_str, "Failed")
            || str_starts_with(status_str, "Selected") || str_starts_with(status_str, "Cancelled")
    }

    /// The text of the status message.
    pub fn render(&self) -> (r: String)
        ensures
            r@ == render_text(self@),
    {
        match self {
            StatusMessage::Initializing => String::from_str("Initializing..."),
            StatusMessage::LoadingRecords => String::from_str("Loading DNS records..."),
            StatusMessage::Error(msg) => {
                let mut s = String::from_str("Error: ");
                s.append(msg.as_str());
                s
            },
            StatusMessage::OperationResult(msg) => msg.clone(),
            StatusMessage::ViewHelp(ViewHelpContext::DeleteConfirmation) => String::from_str(
                "Enter: confirm deletion | Esc: cancel",
            ),
            StatusMessage::ViewHelp(ViewHelpContext::IpSelector) => String::from_str(
                "↑↓: navigate | Enter: select IP | Esc: back to form",
            ),
            StatusMessage::FormFieldHelp { context, form_type, form_proxied, is_editing } => {
                match context {
                    FormFieldContext::Type => {
                        let mut s = String::from_str("Field 1/6 — Type: ");
                        s.append(form_type.as_str());
                        s.append(" | Space: cycle types");
                        s
                    },
                    FormFieldContext::Name => String::from_str(
                        "Field 2/6 — Name: e.g. www (subdomain)",
                    ),
                    FormFieldContext::Content => String::from_str(
                        "Field 3/6 — IP Address | Space: open selector | Type: enter IP",
                    ),
                    FormFieldContext::Ttl => String::from_str(
                        "Field 4/6 — TTL: seconds (1 = auto)",
                    ),
                    FormFieldContext::Proxied => {
                        let mut s = String::from_str("Field 5/6 — Proxied: ");
                        if str_equal(form_proxied.as_str(), "true") {
                            s.append("Orange cloud ON");
                        } else {
                            s.append("Grey cloud OFF");
                        }
                        s
                    },
                    FormFieldContext::Submit => {
                        let mut s = String::from_str("Field 6/6 — Press Enter to ");
                        if *is_editing {
                            s.append("Save");
                        } else {
                            s.append("Create");
                        }
                        s.append(" record");
                        s
                    },
                }
            },
            StatusMessage::RecordListHelp { position, total, record_name } => {
                let mut s = String::new();
                push_decimal(&mut s, *position as u64);
                s.append(" of ");
                push_decimal(&mut s, *total as u64);
                s.append(" — ");
                s.append(record_name.as_str());
                s.append(" | E: edit | D: delete | R: refresh | C: create | Q: quit");
                proof {
                    assert(s@ =~= render_text(self@));
                }
                s
            },
            StatusMessage::EmptyListHelp => String::from_str(
                "No records | C: create your first DNS record | Q: quit",
            ),
        }
    }
}

/// Generates the contextual help for the current state of the interface.
pub fn generate_contextual_status(
    view: &AppView,
    form_focus: usize,
    form_type: &str,
    form_proxied: &str,
    is_editing: bool,
    record_count: usize,
    selected_record_idx: usize,
    selected_record_name: Option<&str>,
) -> (m: StatusMessage)
    ensures
        m@ == contextual_status(
            *view,
            form_focus as int,
            form_type@,
            form_proxied@,
            is_editing,
            record_count as int,
            selected_record_idx as int,
            match selected_record_name {
                Some(n) => Some(n@),
                None => None,
            },
        ),
{
    match view {
        AppView::Delete => StatusMessage::ViewHelp(ViewHelpContext::DeleteConfirmation),
        AppView::IpSelect => StatusMessage::ViewHelp(ViewHelpContext::IpSelector),
        AppView::Create | AppView::Edit => {
            let context = if form_focus == 0 {
                FormFieldContext::Type
            } else if form_focus == 1 {
                FormFieldContext::Name
            } else if form_focus == 2 {
                FormFieldContext::Content
            } else if form_focus == 3 {
                FormFieldContext::Ttl
            } else if form_focus == 4 {
                FormFieldContext::Proxied
            } else if form_focus == 5 {
                FormFieldContext::Submit
            } else {
                FormFieldContext::Name
            };
            StatusMessage::FormFieldHelp {
                context,
                form_type: String::from_str(form_type),
                form_proxied: String::from_str(form_proxied),
                is_editing,
            }
        },
        AppView::List => {
            if record_count > 0 && selected_record_idx < record_count {
                let record_name = match selected_record_name {
                    Some(n) => String::from_str(n),
                    None => String::from_str("Unknown"),
                };
                StatusMessage::RecordListHelp {
                    position: selected_record_idx + 1,
                    total: record_count,
                    record_name,
                }
            } else {
                StatusMessage::EmptyListHelp
            }
        },
    }
}

} // verus!
