//! Properties of the status line that hold across its messages.
use vstd::prelude::*;
use crate::ui::state::AppView;
use crate::ui::status::{
    contextual_status, render_text, spec_status_type, transient_text, FormFieldContext,
    StatusModel, StatusType, ViewHelpContext,
};
use crate::utils::text::{decimal, digit_char, has_prefix};

verus! {

/// Every decimal notation begins with a digit.
pub proof fn lemma_decimal_starts_with_digit(n: nat)
    ensures
        decimal(n).len() >= 1,
        '0' <= decimal(n)[0] <= '9',
    decreases n,
{
    if n >= 10 {
        lemma_decimal_starts_with_digit(n / 10);
        assert((decimal(n / 10) + seq![digit_char(n % 10)])[0] == decimal(n / 10)[0]);
    }
}

/// A text whose first two characters rule out every transient word is not transient.
proof fn lemma_not_transient(s: Seq<char>)
    requires
        s.len() >= 2,
        s[0] != 'R' && s[0] != 'C' && s[0] != 'U' && s[0] != 'D' && s[0] != 'S',
        s[0] == 'E' ==> s[1] != 'r',
        s[0] == 'F' ==> s[1] != 'a',
    ensures
        !transient_text(s),
{
    reveal_strlit("Error:");
    reveal_strlit("Refreshing...");
    reveal_strlit("Created");
    reveal_strlit("Updated");
    reveal_strlit("Deleted");
    reveal_strlit("Failed");
    reveal_strlit("Selected");
    reveal_strlit("Cancelled");
    let ps = seq![
        "Error:"@,
        "Refreshing..."@,
        "Created"@,
        "Updated"@,
        "Deleted"@,
        "Failed"@,
        "Selected"@,
        "Cancelled"@,
    ];
    assert forall|k: int| 0 <= k < 8 implies !has_prefix(s, #[trigger] ps[k]) by {
        let p = ps[k];
        if has_prefix(s, p) {
            assert(s.subrange(0, p.len() as int)[0] == p[0]);
            assert(s.subrange(0, p.len() as int)[1] == p[1]);
        }
    }
    assert(!has_prefix(s, ps[0]));
    assert(!has_prefix(s, ps[1]));
    assert(!has_prefix(s, ps[2]));
    assert(!has_prefix(s, ps[3]));
    assert(!has_prefix(s, ps[4]));
    assert(!has_prefix(s, ps[5]));
    assert(!has_prefix(s, ps[6]));
    assert(!has_prefix(s, ps[7]));
}

/// The help texts never look like transient messages, so the status line
/// never clears them by itself.
pub proof fn law_contextual_text_is_not_transient(m: StatusModel)
    requires
        spec_status_type(m) == StatusType::Contextual,
    ensures
        !transient_text(render_text(m)),
{
    let s = render_text(m);
    match m {
        StatusModel::ViewHelp(ViewHelpContext::DeleteConfirmation) => {
            reveal_strlit("Enter: confirm deletion | Esc: cancel");
            lemma_not_transient(s);
        },
        StatusModel::ViewHelp(ViewHelpContext::IpSelector) => {
            reveal_strlit("↑↓: navigate | Enter: select IP | Esc: back to form");
            lemma_not_transient(s);
        },
        StatusModel::FormFieldHelp { context, form_type, form_proxied, is_editing } => {
            reveal_strlit("Field 1/6 — Type: ");
            reveal_strlit("Field 2/6 — Name: e.g. www (subdomain)");
            reveal_strlit("Field 3/6 — IP Address | Space: open selector | Type: enter IP");
            reveal_strlit("Field 4/6 — TTL: seconds (1 = auto)");
            reveal_strlit("Field 5/6 — Proxied: ");
            reveal_strlit("Field 6/6 — Press Enter to ");
            assert(s[0] == 'F' && s[1] == 'i');
            lemma_not_transient(s);
        },
        StatusModel::RecordListHelp { position, total, record_name } => {
            lemma_decimal_starts_with_digit(position as nat);
            reveal_strlit(" of ");
            let d = decimal(position as nat);
            assert(s[0] == d[0]);
            assert(s.len() >= 2);
            lemma_not_transient(s);
        },
        StatusModel::EmptyListHelp => {
            reveal_strlit("No records | C: create your first DNS record | Q: quit");
            lemma_not_transient(s);
        },
        _ => {},
    }
}

/// An error message always clears by itself: its text is transient.
pub proof fn law_error_text_is_transient(msg: Seq<char>)
    ensures
        spec_status_type(StatusModel::Error(msg)) == StatusType::Transient,
        transient_text(render_text(StatusModel::Error(msg))),
{
    reveal_strlit("Error: ");
    reveal_strlit("Error:");
    let s = render_text(StatusModel::Error(msg));
    assert(s.subrange(0, 6) =~= "Error:"@);
}

/// The help generated for any state of the interface is contextual, so it
/// never clears by itself.
pub proof fn law_generated_help_is_contextual(
    view: AppView,
    form_focus: int,
    form_type: Seq<char>,
    form_proxied: Seq<char>,
    is_editing: bool,
    record_count: int,
    selected_record_idx: int,
    selected_record_name: Option<Seq<char>>,
)
    ensures
        ({
            let m = contextual_status(
                view,
                form_focus,
                form_type,
                form_proxied,
                is_editing,
                record_count,
                selected_record_idx,
                selected_record_name,
            );
            spec_status_type(m) == StatusType::Contextual && !transient_text(render_text(m))
        }),
{
    let m = contextual_status(
        view,
        form_focus,
        form_type,
        form_proxied,
        is_editing,
        record_count,
        selected_record_idx,
        selected_record_name,
    );
    law_contextual_text_is_not_transient(m);
}

} // verus!
