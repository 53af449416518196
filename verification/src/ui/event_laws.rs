//! Properties of the key handling that hold across keys and states.
use vstd::prelude::*;
use crate::api::models::DnsRecord;
use crate::ui::events::{
    flag_on, key_step, next_record_type, type_index_from, ActionModel, KeyCode, KeyEvent, UiModel,
};
use crate::ui::state::{record_type_name, AppView};
use crate::utils::formatting::spec_strip_suffix;
use crate::utils::text::int_decimal;
use vstd::arithmetic::div_mod::{lemma_mod_add_multiples_vanish, lemma_mod_self_0, lemma_small_mod};

verus! {

/// A key event for a pressed key.
pub open spec fn press(code: KeyCode) -> KeyEvent {
    KeyEvent { code, release: false }
}

/// Releasing a key changes nothing and starts nothing.
pub proof fn law_release_is_ignored(
    s: UiModel,
    code: KeyCode,
    records: Seq<DnsRecord>,
    ips: Seq<String>,
    domain_suffix: Seq<char>,
)
    ensures
        key_step(s, KeyEvent { code, release: true }, records, ips, domain_suffix) == (
            s,
            ActionModel::Nothing,
        ),
{
}

/// The application quits only from the record list.
pub proof fn law_quit_only_from_list(
    s: UiModel,
    key: KeyEvent,
    records: Seq<DnsRecord>,
    ips: Seq<String>,
    domain_suffix: Seq<char>,
)
    requires
        !s.should_exit,
        key_step(s, key, records, ips, domain_suffix).0.should_exit,
    ensures
        s.view == AppView::List,
        !key.release,
        key.code == KeyCode::Char('q') || key.code == KeyCode::Char('Q'),
{
}

/// In the record list, R and L (either case) reload the records and say
/// "Refreshing...", leaving the view and the selection as they were.
pub proof fn law_list_reload_keys(
    s: UiModel,
    c: char,
    records: Seq<DnsRecord>,
    ips: Seq<String>,
    domain_suffix: Seq<char>,
)
    requires
        s.view == AppView::List,
        c == 'r' || c == 'R' || c == 'l' || c == 'L',
    ensures
        key_step(s, press(KeyCode::Char(c)), records, ips, domain_suffix).1 == ActionModel::Refresh,
        key_step(s, press(KeyCode::Char(c)), records, ips, domain_suffix).0 == (UiModel {
            status: "Refreshing..."@,
            ..s
        }),
{
}

/// In the record list, Down then Up comes back to the same record.
pub proof fn law_list_down_up(
    s: UiModel,
    records: Seq<DnsRecord>,
    ips: Seq<String>,
    domain_suffix: Seq<char>,
)
    requires
        s.view == AppView::List,
        0 <= s.list_sel_idx < records.len(),
    ensures
        ({
            let s1 = key_step(s, press(KeyCode::Down), records, ips, domain_suffix).0;
            let s2 = key_step(s1, press(KeyCode::Up), records, ips, domain_suffix).0;
            s2 == s
        }),
{
    let s1 = key_step(s, press(KeyCode::Down), records, ips, domain_suffix).0;
    let s2 = key_step(s1, press(KeyCode::Up), records, ips, domain_suffix).0;
    assert(s2 =~= s);
}

/// In the record list, Up then Down comes back to the same record.
pub proof fn law_list_up_down(
    s: UiModel,
    records: Seq<DnsRecord>,
    ips: Seq<String>,
    domain_suffix: Seq<char>,
)
    requires
        s.view == AppView::List,
        0 <= s.list_sel_idx < records.len(),
    ensures
        ({
            let s1 = key_step(s, press(KeyCode::Up), records, ips, domain_suffix).0;
            let s2 = key_step(s1, press(KeyCode::Down), records, ips, domain_suffix).0;
            s2 == s
        }),
{
    let s1 = key_step(s, press(KeyCode::Up), records, ips, domain_suffix).0;
    let s2 = key_step(s1, press(KeyCode::Down), records, ips, domain_suffix).0;
    assert(s2 =~= s);
}

/// The list selection never leaves the list once it is inside it.
pub proof fn law_list_selection_stays_in_range(
    s: UiModel,
    key: KeyEvent,
    records: Seq<DnsRecord>,
    ips: Seq<String>,
    domain_suffix: Seq<char>,
)
    requires
        0 <= s.list_sel_idx < records.len(),
    ensures
        0 <= key_step(s, key, records, ips, domain_suffix).0.list_sel_idx < records.len(),
{
}

/// In the record list the arrows move the selection round the records,
/// wrapping at both ends; with no records they leave it where it is.
pub proof fn law_list_arrows_wrap(
    s: UiModel,
    records: Seq<DnsRecord>,
    ips: Seq<String>,
    domain_suffix: Seq<char>,
)
    requires
        s.view == AppView::List,
        records.len() == 0 || 0 <= s.list_sel_idx < records.len(),
    ensures
        ({
            let n = records.len() as int;
            let i = s.list_sel_idx;
            let down = key_step(s, press(KeyCode::Down), records, ips, domain_suffix).0.list_sel_idx;
            let up = key_step(s, press(KeyCode::Up), records, ips, domain_suffix).0.list_sel_idx;
            &&& n > 0 ==> down == (i + 1) % n
            &&& n > 0 ==> up == (i + n - 1) % n
            &&& n == 0 ==> down == i && up == i
        }),
{
    let n = records.len() as int;
    let i = s.list_sel_idx;
    if n > 0 {
        if i < n - 1 {
            lemma_small_mod((i + 1) as nat, n as nat);
        } else {
            lemma_mod_self_0(n);
        }
        if i > 0 {
            lemma_small_mod((i - 1) as nat, n as nat);
            lemma_mod_add_multiples_vanish(i - 1, n);
            assert(n + (i - 1) == i + n - 1);
        } else {
            lemma_small_mod((n - 1) as nat, n as nat);
        }
        let down = key_step(s, press(KeyCode::Down), records, ips, domain_suffix).0.list_sel_idx;
        let up = key_step(s, press(KeyCode::Up), records, ips, domain_suffix).0.list_sel_idx;
        assert(down == (i + 1) % n);
        assert(up == (i + n - 1) % n);
    }
}

/// In the form, Down and Tab move the focus to the next of the six fields,
/// Up and Shift-Tab to the one before, round the six.
pub proof fn law_form_focus_moves(
    s: UiModel,
    records: Seq<DnsRecord>,
    ips: Seq<String>,
    domain_suffix: Seq<char>,
)
    requires
        s.view == AppView::Create || s.view == AppView::Edit,
        0 <= s.form_focus < 6,
    ensures
        key_step(s, press(KeyCode::Down), records, ips, domain_suffix).0.form_focus == (s.form_focus
            + 1) % 6,
        key_step(s, press(KeyCode::Tab), records, ips, domain_suffix).0.form_focus == (s.form_focus
            + 1) % 6,
        key_step(s, press(KeyCode::Up), records, ips, domain_suffix).0.form_focus == (s.form_focus
            + 5) % 6,
        key_step(s, press(KeyCode::BackTab), records, ips, domain_suffix).0.form_focus == (
        s.form_focus + 5) % 6,
{
}

/// The focus is one of the six form fields after every key, whatever the view.
pub proof fn law_form_focus_stays_in_range(
    s: UiModel,
    key: KeyEvent,
    records: Seq<DnsRecord>,
    ips: Seq<String>,
    domain_suffix: Seq<char>,
)
    requires
        0 <= s.form_focus < 6,
    ensures
        0 <= key_step(s, key, records, ips, domain_suffix).0.form_focus < 6,
{
}

/// In the form, Tab then Shift-Tab comes back to the same field.
pub proof fn law_form_tab_back_tab(
    s: UiModel,
    records: Seq<DnsRecord>,
    ips: Seq<String>,
    domain_suffix: Seq<char>,
)
    requires
        s.view == AppView::Create || s.view == AppView::Edit,
        0 <= s.form_focus < 6,
    ensures
        ({
            let s1 = key_step(s, press(KeyCode::Tab), records, ips, domain_suffix).0;
            let s2 = key_step(s1, press(KeyCode::BackTab), records, ips, domain_suffix).0;
            s2 == s
        }),
{
    let s1 = key_step(s, press(KeyCode::Tab), records, ips, domain_suffix).0;
    let s2 = key_step(s1, press(KeyCode::BackTab), records, ips, domain_suffix).0;
    assert(s2 =~= s);
}

/// Space on the proxy field twice gives back the flag's text, when it was
/// "true" or "false".
pub proof fn law_proxy_toggle_twice(
    s: UiModel,
    records: Seq<DnsRecord>,
    ips: Seq<String>,
    domain_suffix: Seq<char>,
)
    requires
        s.view == AppView::Create || s.view == AppView::Edit,
        s.form_focus == 4,
        s.form.proxied == "true"@ || s.form.proxied == "false"@,
    ensures
        ({
            let s1 = key_step(s, press(KeyCode::Char(' ')), records, ips, domain_suffix).0;
            let s2 = key_step(s1, press(KeyCode::Char(' ')), records, ips, domain_suffix).0;
            s2 == s
        }),
{
    reveal_strlit("true");
    reveal_strlit("false");
    let s1 = key_step(s, press(KeyCode::Char(' ')), records, ips, domain_suffix).0;
    let s2 = key_step(s1, press(KeyCode::Char(' ')), records, ips, domain_suffix).0;
    assert(s2 =~= s);
}

/// Cycling the record type seven times comes back to the type one started from.
pub proof fn law_type_cycle_returns(t: int)
    requires
        0 <= t < 7,
    ensures
        ({
            let t1 = next_record_type(record_type_name(t));
            let t2 = next_record_type(t1);
            let t3 = next_record_type(t2);
            let t4 = next_record_type(t3);
            let t5 = next_record_type(t4);
            let t6 = next_record_type(t5);
            next_record_type(t6) == record_type_name(t)
        }),
{
    lemma_next_type(0);
    lemma_next_type(1);
    lemma_next_type(2);
    lemma_next_type(3);
    lemma_next_type(4);
    lemma_next_type(5);
    lemma_next_type(6);
}

/// The type after the `t`-th one is the `(t + 1)`-th, round the cycle.
proof fn lemma_next_type(t: int)
    requires
        0 <= t < 7,
    ensures
        next_record_type(record_type_name(t)) == record_type_name((t + 1) % 7),
{
    reveal_strlit("A");
    reveal_strlit("AAAA");
    reveal_strlit("CNAME");
    reveal_strlit("MX");
    reveal_strlit("TXT");
    reveal_strlit("SRV");
    reveal_strlit("CAA");
    let n = record_type_name(t);
    assert(record_type_name(0).len() == 1 && record_type_name(1).len() == 4);
    assert(record_type_name(2).len() == 5 && record_type_name(3).len() == 2);
    assert(record_type_name(4)[0] == 'T' && record_type_name(5)[0] == 'S');
    assert(record_type_name(6)[0] == 'C');
    assert forall|j: int| 0 <= j < t implies record_type_name(j) != n by {
        if record_type_name(j) == n {
            assert(record_type_name(j).len() == n.len());
            assert(record_type_name(j)[0] == n[0]);
        }
    }
    lemma_type_index_skips(n, 0, t);
}

/// The search for a type passes over the positions that hold other types.
proof fn lemma_type_index_skips(n: Seq<char>, i: int, t: int)
    requires
        0 <= i <= t < 7,
        record_type_name(t) == n,
        forall|j: int| 0 <= j < t ==> record_type_name(j) != n,
    ensures
        type_index_from(n, i) == t,
    decreases t - i,
{
    if i < t {
        lemma_type_index_skips(n, i + 1, t);
    }
}

/// A record is submitted once: while a submission is under way, Enter
/// starts no other one.
pub proof fn law_no_double_submit(
    s: UiModel,
    records: Seq<DnsRecord>,
    ips: Seq<String>,
    domain_suffix: Seq<char>,
)
    requires
        key_step(s, press(KeyCode::Enter), records, ips, domain_suffix).1 is Submit,
    ensures
        ({
            let s1 = key_step(s, press(KeyCode::Enter), records, ips, domain_suffix).0;
            &&& s1.is_submitting
            &&& key_step(s1, press(KeyCode::Enter), records, ips, domain_suffix).1 is Nothing
        }),
{
}

/// A record is deleted once: while a deletion is under way, Enter starts no
/// other one.
pub proof fn law_no_double_delete(
    s: UiModel,
    records: Seq<DnsRecord>,
    ips: Seq<String>,
    domain_suffix: Seq<char>,
)
    requires
        key_step(s, press(KeyCode::Enter), records, ips, domain_suffix).1 is Delete,
    ensures
        ({
            let s1 = key_step(s, press(KeyCode::Enter), records, ips, domain_suffix).0;
            &&& s1.is_deleting
            &&& key_step(s1, press(KeyCode::Enter), records, ips, domain_suffix).1 is Nothing
        }),
{
}

/// Esc in the form leaves the form for the record list, saying "Cancelled".
pub proof fn law_escape_from_form(
    s: UiModel,
    records: Seq<DnsRecord>,
    ips: Seq<String>,
    domain_suffix: Seq<char>,
)
    requires
        s.view == AppView::Create || s.view == AppView::Edit,
    ensures
        key_step(s, press(KeyCode::Esc), records, ips, domain_suffix).0.view == AppView::List,
        key_step(s, press(KeyCode::Esc), records, ips, domain_suffix).0.status == "Cancelled"@,
        key_step(s, press(KeyCode::Esc), records, ips, domain_suffix).1 is Nothing,
{
}

/// The id of a record as the interface works with it: its id, or the empty
/// text when it has none.
pub open spec fn id_of(r: DnsRecord) -> Seq<char> {
    match r.id {
        Some(id) => id@,
        None => Seq::empty(),
    }
}

/// Enter in the delete confirmation deletes the record that is selected in
/// the list: the deletion names that record's id, name and type.
pub proof fn law_delete_names_selected_record(
    s: UiModel,
    records: Seq<DnsRecord>,
    ips: Seq<String>,
    domain_suffix: Seq<char>,
)
    requires
        s.view == AppView::Delete,
        !s.is_deleting,
        0 <= s.list_sel_idx < records.len(),
    ensures
        key_step(s, press(KeyCode::Enter), records, ips, domain_suffix).1 == (ActionModel::Delete {
            record_id: id_of(records[s.list_sel_idx]),
            record_name: records[s.list_sel_idx].name@,
            record_type: records[s.list_sel_idx].record_type@,
        }),
{
}

/// From the record list, D and then Enter delete the selected record.
pub proof fn law_d_then_enter_deletes_selected(
    s: UiModel,
    records: Seq<DnsRecord>,
    ips: Seq<String>,
    domain_suffix: Seq<char>,
)
    requires
        s.view == AppView::List,
        !s.is_deleting,
        0 <= s.list_sel_idx < records.len(),
    ensures
        ({
            let s1 = key_step(s, press(KeyCode::Char('d')), records, ips, domain_suffix).0;
            key_step(s1, press(KeyCode::Enter), records, ips, domain_suffix).1
                == (ActionModel::Delete {
                record_id: id_of(records[s.list_sel_idx]),
                record_name: records[s.list_sel_idx].name@,
                record_type: records[s.list_sel_idx].record_type@,
            })
        }),
{
    let s1 = key_step(s, press(KeyCode::Char('d')), records, ips, domain_suffix).0;
    law_delete_names_selected_record(s1, records, ips, domain_suffix);
}

/// E in the record list edits the selected record: its id is the one being
/// edited, and the form holds its type, its name without the zone's suffix,
/// its content, its TTL written out (1 when it has none) and its proxy flag.
pub proof fn law_edit_fills_form_from_selected(
    s: UiModel,
    records: Seq<DnsRecord>,
    ips: Seq<String>,
    domain_suffix: Seq<char>,
)
    requires
        s.view == AppView::List,
        0 <= s.list_sel_idx < records.len(),
    ensures
        ({
            let r = records[s.list_sel_idx];
            let s1 = key_step(s, press(KeyCode::Char('e')), records, ips, domain_suffix).0;
            &&& s1.view == AppView::Edit
            &&& s1.form_focus == 0
            &&& s1.editing_record_id == id_of(r)
            &&& s1.form.record_type == r.record_type@
            &&& s1.form.name == spec_strip_suffix(r.name@, domain_suffix)
            &&& s1.form.content == r.content@
            &&& s1.form.ttl == int_decimal(
                match r.ttl {
                    Some(t) => t as int,
                    None => 1,
                },
            )
            &&& s1.form.proxied == (if r.proxied == Some(true) {
                "true"@
            } else {
                "false"@
            })
            &&& s1.status == "Editing "@ + r.name@ + " ("@ + r.record_type@ + ") — Esc to cancel"@
        }),
{
}

/// Enter on the submit field sends what the form holds, under the id of the
/// record being edited: an update of that record while editing, a creation
/// (empty id) otherwise.
pub proof fn law_submit_sends_form_and_edited_id(
    s: UiModel,
    records: Seq<DnsRecord>,
    ips: Seq<String>,
    domain_suffix: Seq<char>,
)
    requires
        s.view == AppView::Create || s.view == AppView::Edit,
        s.form_focus == 5,
        !s.is_submitting,
    ensures
        key_step(s, press(KeyCode::Enter), records, ips, domain_suffix).1 matches ActionModel::Submit {
            record_id,
            record_type,
            name,
            content,
            ..
        } && record_id == s.editing_record_id && record_type == s.form.record_type && name
            == s.form.name && content == s.form.content,
{
}

/// Editing the selected record and submitting at once sends an update of
/// that record, with its values as the form was filled from it.
pub proof fn law_edit_then_submit_updates_selected(
    s: UiModel,
    records: Seq<DnsRecord>,
    ips: Seq<String>,
    domain_suffix: Seq<char>,
)
    requires
        s.view == AppView::List,
        !s.is_submitting,
        0 <= s.list_sel_idx < records.len(),
    ensures
        ({
            let r = records[s.list_sel_idx];
            let s1 = key_step(s, press(KeyCode::Char('e')), records, ips, domain_suffix).0;
            let s2 = key_step(s1, press(KeyCode::Up), records, ips, domain_suffix).0;
            key_step(s2, press(KeyCode::Enter), records, ips, domain_suffix).1 matches ActionModel::Submit {
                record_id,
                record_type,
                content,
                ..
            } && record_id == id_of(r) && record_type == r.record_type@ && content == r.content@
        }),
{
    law_edit_fills_form_from_selected(s, records, ips, domain_suffix);
    let s1 = key_step(s, press(KeyCode::Char('e')), records, ips, domain_suffix).0;
    let s2 = key_step(s1, press(KeyCode::Up), records, ips, domain_suffix).0;
    assert(s2.form_focus == 5);
    law_submit_sends_form_and_edited_id(s2, records, ips, domain_suffix);
}

/// Enter in the IP selector on one of the known addresses puts that address
/// in the form's content, says it was selected, and goes back to the form's
/// address field.
pub proof fn law_ip_enter_takes_highlighted_address(
    s: UiModel,
    records: Seq<DnsRecord>,
    ips: Seq<String>,
    domain_suffix: Seq<char>,
)
    requires
        s.view == AppView::IpSelect,
        0 <= s.ip_sel_idx < ips.len(),
    ensures
        ({
            let s1 = key_step(s, press(KeyCode::Enter), records, ips, domain_suffix).0;
            &&& s1.form.content == ips[s.ip_sel_idx]@
            &&& s1.status == "Selected: "@ + ips[s.ip_sel_idx]@
            &&& s1.form_focus == 2
            &&& s1.view == (if s.editing_record_id.len() == 0 {
                AppView::Create
            } else {
                AppView::Edit
            })
        }),
{
}

/// Enter in the IP selector on the entry after the known addresses empties
/// the form's content for a new address.
pub proof fn law_ip_enter_new_address(
    s: UiModel,
    records: Seq<DnsRecord>,
    ips: Seq<String>,
    domain_suffix: Seq<char>,
)
    requires
        s.view == AppView::IpSelect,
        s.ip_sel_idx == ips.len(),
    ensures
        ({
            let s1 = key_step(s, press(KeyCode::Enter), records, ips, domain_suffix).0;
            &&& s1.form.content == Seq::<char>::empty()
            &&& s1.status == "Type a new IP"@
            &&& s1.form_focus == 2
        }),
{
}

} // verus!
