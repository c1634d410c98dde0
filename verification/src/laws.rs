//! Properties that relate several operations of the library.
use vstd::prelude::*;
use slint::language::StandardListViewItem;
use crate::JRMAGIC;
use crate::cells::{CellGrid, Row, accepts, holds_payload, cell_of, convertible, convertible_values, texts_after_template, row_texts};
use crate::error_state::ErrorState;
use crate::jrvalue::{JRvalue, ValueIn, ValueOut, lemma_kind_names_distinct};
use crate::registry::bridges_after_insert;
use crate::slint_value::{SlintValue, list_item};
use vstd::std_specs::convert::FromSpec;

verus! {

/// What the error state reports is what was last recorded in it: the
/// integer is 1 exactly when an error was recorded, the string is its
/// description.
pub proof fn law_error_report_reads_last_set(e: ErrorState, desc: Seq<char>, state: bool, r: JRvalue)
    requires
        e.desc@ == desc,
        e.state == state,
        e.reports(r),
    ensures
        r.magic == JRMAGIC,
        r.int_value == (if state { 1i32 } else { 0i32 }),
        r.string_value@ == desc,
{
}

/// A step that may change the error state, by the operation that makes it.
pub enum ErrorStep {
    /// `ErrorState::clear`.
    Clear,
    /// `ErrorState::set` with this flag.
    Assign(bool),
    /// `record_diagnostics`, `record_missing_instance`,
    /// `record_callback_failure`, `record_write_failure` or
    /// `record_read_failure`.
    Record,
    /// `JRvalue::callback_reply`.
    CallbackReply,
    /// `ErrorState::report`, or any operation that leaves the state alone.
    Read,
}

/// `after` is a state that `step` may leave `before` in, by the contract of
/// the operation that makes the step.
pub open spec fn step_effect(before: ErrorState, after: ErrorState, step: ErrorStep) -> bool {
    match step {
        ErrorStep::Clear => !after.state && after.desc@ == Seq::<char>::empty(),
        ErrorStep::Assign(b) => after.state == b,
        ErrorStep::Record => after.state,
        ErrorStep::CallbackReply => after.state || after == before,
        ErrorStep::Read => after == before,
    }
}

/// Only clearing the error state resets its flag: once an error is recorded,
/// every later step but `clear` (or an explicit `set` to no error) leaves the
/// flag set. `trace[i + 1]` is the state after `steps[i]` on `trace[i]`.
pub proof fn law_only_clearing_resets_error(trace: Seq<ErrorState>, steps: Seq<ErrorStep>)
    requires
        trace.len() == steps.len() + 1,
        trace[0].state,
        forall|i: int| 0 <= i < steps.len() ==> step_effect(trace[i], trace[i + 1], #[trigger] steps[i]),
        forall|i: int| 0 <= i < steps.len() ==> !(#[trigger] steps[i] is Clear) && steps[i] != ErrorStep::Assign(false),
    ensures
        forall|i: int| 0 <= i < trace.len() ==> (#[trigger] trace[i]).state,
    decreases steps.len(),
{
    if steps.len() > 0 {
        let n = steps.len() - 1;
        law_only_clearing_resets_error(trace.drop_last(), steps.drop_last());
        assert(trace.drop_last()[n].state);
        assert(step_effect(trace[n], trace[n + 1], steps[n]));
        assert forall|i: int| 0 <= i < trace.len() implies (#[trigger] trace[i]).state by {
            if i < trace.len() - 1 {
                assert(trace.drop_last()[i] == trace[i]);
            }
        }
    }
}

/// A cleared error state reports no error and an empty description.
pub proof fn law_cleared_error_reports_nothing(e: ErrorState, r: JRvalue)
    requires
        !e.state,
        e.desc@ == Seq::<char>::empty(),
        e.reports(r),
    ensures
        r.int_value == 0,
        r.string_value@ == Seq::<char>::empty(),
{
}

/// Setting the cell at a 1-based position and then reading that position
/// gives back the payload that was set; every other position reads as
/// before.
pub proof fn law_cell_read_after_write(
    before: CellGrid,
    after: CellGrid,
    row1: i32,
    col1: i32,
    v: JRvalue,
    r: JRvalue,
)
    requires
        before.locates(row1, col1),
        after.same_but(before, row1 - 1, col1 - 1),
        holds_payload(after.cell(row1 - 1, col1 - 1), v, before.cell(row1 - 1, col1 - 1).value_slvi),
        after.reports(row1, col1, r),
    ensures
        r.magic == JRMAGIC,
        r.int_value == v.int_value,
        r.float_value == v.float_value,
        r.string_value@ == v.string_value@,
        forall|r1: i32, c1: i32, w: JRvalue, u: JRvalue|
            !(r1 == row1 && c1 == col1) && #[trigger] before.reports(r1, c1, w) && #[trigger] after.reports(r1, c1, u)
                ==> u.int_value == w.int_value && u.float_value == w.float_value && u.string_value@ == w.string_value@,
{
    assert forall|r1: i32, c1: i32, w: JRvalue, u: JRvalue|
        !(r1 == row1 && c1 == col1) && #[trigger] before.reports(r1, c1, w) && #[trigger] after.reports(r1, c1, u)
        implies u.int_value == w.int_value && u.float_value == w.float_value && u.string_value@ == w.string_value@ by {
        assert(after.locates(r1, c1) == before.locates(r1, c1));
        if before.locates(r1, c1) {
            assert(after.cell(r1 - 1, c1 - 1) == before.cell(r1 - 1, c1 - 1));
        }
    }
}

/// A "Bool" reply of 0 refuses an edit; a "Bool" reply of 1 lets it through.
pub proof fn law_bool_reply_decides_edit(no: JRvalue, yes: JRvalue)
    requires
        no.is_plain("Bool"@, 0, 0, Seq::empty()),
        yes.is_plain("Bool"@, 1, 0, Seq::empty()),
    ensures
        !accepts(no),
        accepts(yes),
{
}

/// Removing a row never touches the template row.
pub proof fn law_template_row_kept(rows: Seq<Row>, index: int)
    requires
        0 < index < rows.len(),
    ensures
        rows.remove(index)[0] == rows[0],
{
}

/// A string, a boolean or a number put into a record comes back out of it
/// unchanged; any other value comes back as no value.
pub proof fn law_value_round_trip(v: ValueIn, j: JRvalue, o: ValueOut)
    requires
        JRvalue::from_value_spec(v, j),
        j.to_value_spec(o),
    ensures
        v matches ValueIn::Bool(b) ==> o == ValueOut::Bool(b),
        v matches ValueIn::Number(bits) ==> o == ValueOut::Number(bits),
        v matches ValueIn::Str(s) ==> (o matches ValueOut::Str(t) && t@ == s@),
        (v is Void || v is Other) ==> o is Void,
{
    lemma_kind_names_distinct();
    if let ValueIn::Bool(b) = v {
        assert((j.int_value != 0) == b);
    }
}

/// A record without the marker stands for no value, whether it is read as
/// a value or as a callback's reply.
pub proof fn law_unmarked_record_gives_no_value(j: JRvalue, o: ValueOut, c: ValueOut)
    requires
        j.magic != JRMAGIC,
        j.to_value_spec(o),
        j.callback_reply_spec(c),
    ensures
        o is Void,
        c is Void,
{
}

/// Recording a bridge twice is the same as recording it once; afterwards the
/// target is listed for the source, other sources are untouched, and no
/// source lists a target twice.
pub proof fn law_bridge_insert(m: Map<Seq<char>, Seq<Seq<char>>>, source: Seq<char>, target: Seq<char>)
    requires
        forall|k: Seq<char>| #[trigger] m.contains_key(k) ==> m[k].no_duplicates(),
    ensures
        bridges_after_insert(bridges_after_insert(m, source, target), source, target)
            == bridges_after_insert(m, source, target),
        bridges_after_insert(m, source, target).contains_key(source),
        bridges_after_insert(m, source, target)[source].contains(target),
        forall|k: Seq<char>| k != source ==> (#[trigger] bridges_after_insert(m, source, target).contains_key(k)
            == m.contains_key(k) && (m.contains_key(k) ==> bridges_after_insert(m, source, target)[k] == m[k])),
        forall|k: Seq<char>| #[trigger] bridges_after_insert(m, source, target).contains_key(k)
            ==> bridges_after_insert(m, source, target)[k].no_duplicates(),
{
    let m1 = bridges_after_insert(m, source, target);
    if m.contains_key(source) && !m[source].contains(target) {
        assert(m1[source] == m[source].push(target));
        assert(m1[source][m[source].len() as int] == target);
        assert forall|i: int, j: int| 0 <= i < m1[source].len() && 0 <= j < m1[source].len() && i != j
            implies m1[source][i] != m1[source][j] by {
            if j == m[source].len() {
                assert(m1[source][i] == m[source][i]);
            } else if i == m[source].len() {
                assert(m1[source][j] == m[source][j]);
            }
        }
    } else if !m.contains_key(source) {
        assert(m1[source] == seq![target]);
        assert(m1[source][0] == target);
    }
}

/// A list item turned into a cell value and back is the same item.
pub proof fn law_list_item_round_trip(item: StandardListViewItem, v: SlintValue)
    requires
        v.holds_item(item),
    ensures
        <StandardListViewItem as FromSpec<SlintValue>>::from_spec(v) == item,
{
}

/// A callback's "Bool" reply gives Slint true exactly when its integer is 1:
/// a reply of 0 (the callback answering false) gives false.
pub proof fn law_bool_callback_reply(j: JRvalue, r: ValueOut)
    requires
        j.magic == JRMAGIC,
        j.rtype@ == "Bool"@,
        j.callback_reply_spec(r),
    ensures
        r == ValueOut::Bool(j.int_value == 1),
        j.int_value == 0 ==> r == ValueOut::Bool(false),
{
}

/// The reply made by `new_bool(b)` gives Slint `b`, whether read as a
/// callback's reply or as a value.
pub proof fn law_new_bool_reply(b: bool, j: JRvalue, r: ValueOut, o: ValueOut)
    requires
        j.is_plain("Bool"@, if b { 1 } else { 0 }, 0, Seq::empty()),
        j.callback_reply_spec(r),
        j.to_value_spec(o),
    ensures
        r == ValueOut::Bool(b),
        o == ValueOut::Bool(b),
{
}

/// Every marked record of kind "Integer" stands for its integer, 0
/// included.
pub proof fn law_integer_record_value(j: JRvalue, o: ValueOut, r: ValueOut)
    requires
        j.magic == JRMAGIC,
        j.rtype@ == "Integer"@,
        j.to_value_spec(o),
        j.callback_reply_spec(r),
    ensures
        o == ValueOut::Int(j.int_value),
        r == ValueOut::Int(j.int_value),
{
    lemma_kind_names_distinct();
}

/// Each cell of a row pushed from records holds the payload of its record:
/// the integer of a "Bool" or "Integer" record, the float of a "Float"
/// record, the string of a "String" record, all three of an "Unknown"
/// record; every record it comes from carries the marker.
pub proof fn law_pushed_cells_hold_payload(values: Seq<JRvalue>, cells: Seq<SlintValue>)
    requires
        cells.len() == convertible_values(values).len(),
        forall|j: int| 0 <= j < cells.len() ==> cell_of(#[trigger] cells[j], convertible_values(values)[j]),
    ensures
        forall|j: int| 0 <= j < cells.len() ==> {
            let v = #[trigger] convertible_values(values)[j];
            let c = cells[j];
            &&& v.magic == JRMAGIC
            &&& values.contains(v)
            &&& (v.rtype@ == "Bool"@ || v.rtype@ == "Integer"@) ==> c.value_i == v.int_value && c.value_f == 0
                && c.value_s@ == Seq::<char>::empty()
            &&& v.rtype@ == "Float"@ ==> c.value_f == v.float_value && c.value_i == 0 && c.value_s@ == Seq::<char>::empty()
            &&& v.rtype@ == "String"@ ==> c.value_s@ == v.string_value@ && c.value_i == 0 && c.value_f == 0
            &&& v.rtype@ == "Unknown"@ ==> c.value_s@ == v.string_value@ && c.value_i == v.int_value
                && c.value_f == v.float_value
        },
{
    lemma_kind_names_distinct();
    let f = convertible_values(values);
    assert forall|j: int| 0 <= j < cells.len() implies {
        let v = #[trigger] f[j];
        let c = cells[j];
        &&& v.magic == JRMAGIC
        &&& values.contains(v)
        &&& (v.rtype@ == "Bool"@ || v.rtype@ == "Integer"@) ==> c.value_i == v.int_value && c.value_f == 0
            && c.value_s@ == Seq::<char>::empty()
        &&& v.rtype@ == "Float"@ ==> c.value_f == v.float_value && c.value_i == 0 && c.value_s@ == Seq::<char>::empty()
        &&& v.rtype@ == "String"@ ==> c.value_s@ == v.string_value@ && c.value_i == 0 && c.value_f == 0
        &&& v.rtype@ == "Unknown"@ ==> c.value_s@ == v.string_value@ && c.value_i == v.int_value
            && c.value_f == v.float_value
    } by {
        let pred = |v: JRvalue| convertible(v);
        assert(f == values.filter(pred));
        values.lemma_filter_pred(pred, j);
        assert(f.contains(f[j]));
        values.lemma_filter_contains_rev(pred, f[j]);
        assert(cell_of(cells[j], f[j]));
    }
}

/// The number of cells in rows 1 up to `i` (exclusive) of `rows`.
pub open spec fn cells_before(rows: Seq<Row>, i: int) -> int
    decreases i,
{
    if i <= 1 {
        0
    } else {
        cells_before(rows, i - 1) + rows[i - 1].cells.len()
    }
}

proof fn lemma_texts_row_major(rows: Seq<Row>, n: int)
    requires
        0 <= n <= rows.len(),
    ensures
        texts_after_template(rows, n).len() == cells_before(rows, n),
        forall|i: int, j: int| 1 <= i < n && 0 <= j < rows[i].cells.len() ==>
            texts_after_template(rows, n)[cells_before(rows, i) + j] == #[trigger] rows[i].cells[j].value_s@,
    decreases n,
{
    if n > 1 {
        lemma_texts_row_major(rows, n - 1);
        let prev = texts_after_template(rows, n - 1);
        let last = row_texts(rows[n - 1]);
        assert(texts_after_template(rows, n) == prev + last);
        assert forall|i: int, j: int| 1 <= i < n && 0 <= j < rows[i].cells.len() implies
            texts_after_template(rows, n)[cells_before(rows, i) + j] == #[trigger] rows[i].cells[j].value_s@ by {
            assert(last.len() == rows[n - 1].cells.len());
            assert(cells_before(rows, n) == cells_before(rows, n - 1) + rows[n - 1].cells.len());
            assert(prev.len() == cells_before(rows, n - 1));
            if i < n - 1 {
                lemma_cells_before_grows(rows, i + 1, n - 1);
                assert(cells_before(rows, i + 1) == cells_before(rows, i) + rows[i].cells.len());
                let idx = cells_before(rows, i) + j;
                assert(0 <= cells_before(rows, i)) by {
                    lemma_cells_before_nonneg(rows, i);
                }
                assert(idx < prev.len());
                assert((prev + last)[idx] == prev[idx]);
                assert(prev[idx] == rows[i].cells[j].value_s@);
            } else {
                let idx = cells_before(rows, i) + j;
                assert(idx == prev.len() + j);
                assert((prev + last)[idx] == last[j]);
                assert(last[j] == rows[i].cells[j].value_s@);
            }
        }
    }
}

proof fn lemma_cells_before_grows(rows: Seq<Row>, a: int, b: int)
    requires
        1 <= a <= b <= rows.len(),
    ensures
        cells_before(rows, a) <= cells_before(rows, b),
    decreases b - a,
{
    if a < b {
        lemma_cells_before_grows(rows, a, b - 1);
    }
}

/// The items that mirror a model into a list view: one per cell of every
/// row but the template row, in row-major order, whatever the template row
/// holds. Item `cells_before(rows, i) + j` is the item of cell (`i`, `j`).
pub proof fn law_list_items_row_major(rows: Seq<Row>, items: Seq<StandardListViewItem>)
    requires
        items == texts_after_template(rows, rows.len() as int).map_values(|t: Seq<char>| list_item(t)),
    ensures
        items.len() == cells_before(rows, rows.len() as int),
        forall|i: int, j: int| 1 <= i < rows.len() && 0 <= j < rows[i].cells.len() ==>
            items[cells_before(rows, i) + j] == list_item(#[trigger] rows[i].cells[j].value_s@),
{
    let n = rows.len() as int;
    lemma_texts_row_major(rows, n);
    let t = texts_after_template(rows, n);
    assert forall|i: int, j: int| 1 <= i < rows.len() && 0 <= j < rows[i].cells.len() implies
        items[cells_before(rows, i) + j] == list_item(#[trigger] rows[i].cells[j].value_s@) by {
        lemma_cells_before_grows(rows, i + 1, n);
        lemma_cells_before_nonneg(rows, i);
        assert(cells_before(rows, i + 1) == cells_before(rows, i) + rows[i].cells.len());
        let idx = cells_before(rows, i) + j;
        assert(0 <= idx < t.len());
        assert(items[idx] == list_item(t[idx]));
    }
}

proof fn lemma_cells_before_nonneg(rows: Seq<Row>, i: int)
    ensures
        0 <= cells_before(rows, i),
    decreases i,
{
    if i > 1 {
        lemma_cells_before_nonneg(rows, i - 1);
    }
}

/// Recording a new target for a source keeps every target recorded before
/// and appends the new one; a target already recorded changes nothing.
pub proof fn law_bridge_insert_keeps_targets(m: Map<Seq<char>, Seq<Seq<char>>>, source: Seq<char>, target: Seq<char>)
    ensures
        m.contains_key(source) && !m[source].contains(target) ==>
            bridges_after_insert(m, source, target)[source] == m[source].push(target),
        m.contains_key(source) && m[source].contains(target) ==>
            bridges_after_insert(m, source, target)[source] == m[source],
        !m.contains_key(source) ==> bridges_after_insert(m, source, target)[source] == seq![target],
        m.contains_key(source) ==> forall|x: Seq<char>| #[trigger] m[source].contains(x) ==>
            bridges_after_insert(m, source, target)[source].contains(x),
{
    if m.contains_key(source) && !m[source].contains(target) {
        let after = m[source].push(target);
        assert forall|x: Seq<char>| #[trigger] m[source].contains(x) implies after.contains(x) by {
            let k = choose|k: int| 0 <= k < m[source].len() && m[source][k] == x;
            assert(after[k] == x);
        }
    }
}

} // verus!
