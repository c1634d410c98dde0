//! The model behind a two-dimensional Slint array property: rows of cells.
//!
//! Row 0 is the template row: clearing keeps it, and no removal touches it.
//! A one-dimensional property is a model whose rows hold one cell each, or
//! one row of many cells.
use vstd::prelude::*;
use slint::language::StandardListViewItem;
use crate::JRMAGIC;
use crate::jrvalue::{JRvalue, ValueOut};
use crate::slint_value::{SlintValue, list_item, list_item_from_str};
use crate::text::text_is;
use vstd::string::*;

verus! {

/// A row of the model. `row` is the index that edits made in the view of
/// this row are addressed to.
pub struct Row {
    pub row: usize,
    pub cells: Vec<SlintValue>,
}

/// The rows of a model.
pub struct CellGrid {
    pub rows: Vec<Row>,
}

/// The index that a 1-based index `i` from the host stands for, or `None`
/// when `i` is not positive (no cell lies there).
pub open spec fn one_based(i: i32) -> Option<int> {
    if i >= 1 {
        Some(i - 1)
    } else {
        None
    }
}

/// The index that a 1-based index `i` from the host stands for, or `None`
/// when `i` is not positive.
pub fn cell_index(i: i32) -> (r: Option<usize>)
    ensures
        r matches Some(k) ==> one_based(i) == Some(k as int),
        r is None ==> one_based(i) is None,
{
    if i >= 1 {
        Some((i - 1) as usize)
    } else {
        None
    }
}

/// Whether the host's reply to an edit lets the edit through: only a valid
/// "Bool" reply of 0 refuses it.
pub open spec fn accepts(reply: JRvalue) -> bool {
    !(reply.magic == JRMAGIC && reply.rtype@ == "Bool"@ && reply.int_value == 0)
}

/// Cell `c` holds the payload of `v` and keeps the list item `slvi`.
pub open spec fn holds_payload(c: SlintValue, v: JRvalue, slvi: StandardListViewItem) -> bool {
    &&& c.value_s@ == v.string_value@
    &&& c.value_i == v.int_value
    &&& c.value_f == v.float_value
    &&& c.value_slvi == slvi
}

/// A record that `push_row_values` turns into a cell.
pub open spec fn convertible(v: JRvalue) -> bool {
    &&& v.magic == JRMAGIC
    &&& {
        ||| v.rtype@ == "Bool"@
        ||| v.rtype@ == "Integer"@
        ||| v.rtype@ == "Float"@
        ||| v.rtype@ == "String"@
        ||| v.rtype@ == "Unknown"@
    }
}

/// The records of `s` that `push_row_values` turns into cells, in order.
pub open spec fn convertible_values(s: Seq<JRvalue>) -> Seq<JRvalue> {
    s.filter(|v: JRvalue| convertible(v))
}

/// The cell that `push_row_values` makes of the convertible record `v`:
/// "Bool" and "Integer" give the integer, "Float" the float, "String" the
/// string, and "Unknown" all three.
pub open spec fn cell_of(c: SlintValue, v: JRvalue) -> bool {
    &&& c.value_slvi == list_item(""@)
    &&& if v.rtype@ == "Bool"@ || v.rtype@ == "Integer"@ {
        c.value_s@ == Seq::<char>::empty() && c.value_i == v.int_value && c.value_f == 0
    } else if v.rtype@ == "Float"@ {
        c.value_s@ == Seq::<char>::empty() && c.value_i == 0 && c.value_f == v.float_value
    } else if v.rtype@ == "String"@ {
        c.value_s@ == v.string_value@ && c.value_i == 0 && c.value_f == 0
    } else {
        c.value_s@ == v.string_value@ && c.value_i == v.int_value && c.value_f == v.float_value
    }
}

proof fn lemma_convertible_step(s: Seq<JRvalue>, i: int)
    requires
        0 <= i < s.len(),
    ensures
        convertible_values(s.take(i + 1)) == (if convertible(s[i]) {
            convertible_values(s.take(i)).push(s[i])
        } else {
            convertible_values(s.take(i))
        }),
{
    let t = s.take(i + 1);
    assert(t.drop_last() =~= s.take(i));
    assert(t.last() == s[i]);
    reveal_with_fuel(Seq::filter, 1);
}

/// The strings of the cells of `r`, in order.
pub open spec fn row_texts(r: Row) -> Seq<Seq<char>> {
    r.cells@.map_values(|c: SlintValue| c.value_s@)
}

/// The strings of the cells of rows 1 up to `n` (exclusive) of `rows`, row
/// after row.
pub open spec fn texts_after_template(rows: Seq<Row>, n: int) -> Seq<Seq<char>>
    decreases n,
{
    if n <= 1 {
        Seq::empty()
    } else {
        texts_after_template(rows, n - 1) + row_texts(rows[n - 1])
    }
}

/// The reply to an edit when the host gives no callback for edits: a
/// "Bool" reply of 0, which refuses the edit.
pub fn default_callback_reply() -> (r: JRvalue)
    ensures
        r.is_plain("Bool"@, 0, 0, Seq::empty()),
        !accepts(r),
{
    JRvalue::new_bool(false)
}

/// Where the reply to an edit comes from.
pub enum EditAnswer {
    /// This reply, without asking the host.
    Fixed(JRvalue),
    /// The host's callback for edits is asked.
    AskHost,
}

/// Where the reply to an edit comes from: an edit that skips the callback
/// (the host itself sets the cell) is accepted, an edit of a model without a
/// callback is refused, and otherwise the host's callback is asked.
pub fn edit_answer(skip_callback: bool, has_callback: bool) -> (r: EditAnswer)
    ensures
        skip_callback ==> (r matches EditAnswer::Fixed(v) && v.is_plain("Bool"@, 1, 0, Seq::empty()) && accepts(v)),
        !skip_callback && !has_callback ==> (r matches EditAnswer::Fixed(v) && v.is_plain("Bool"@, 0, 0, Seq::empty())
            && !accepts(v)),
        !skip_callback && has_callback ==> r is AskHost,
{
    if skip_callback {
        EditAnswer::Fixed(JRvalue::new_bool(true))
    } else if has_callback {
        EditAnswer::AskHost
    } else {
        EditAnswer::Fixed(default_callback_reply())
    }
}

/// The record that an edit made in the view stands for: kind "Unknown",
/// the edited text, zero numbers.
pub fn edit_value(text: String) -> (r: JRvalue)
    ensures
        r.is_plain("Unknown"@, 0, 0, text@),
{
    let mut rv = JRvalue::new_undefined();
    rv.string_value = text;
    rv
}

/// `n` fresh cells.
fn default_cells(n: usize) -> (r: Vec<SlintValue>)
    ensures
        r.len() == n,
        forall|j: int| 0 <= j < n ==> #[trigger] r[j].is_default(),
{
    let mut cells: Vec<SlintValue> = Vec::new();
    let mut j: usize = 0;
    while j < n
        invariant
            j <= n,
            cells.len() == j,
            forall|k: int| 0 <= k < j ==> #[trigger] cells[k].is_default(),
        decreases n - j,
    {
        cells.push(SlintValue::new());
        j = j + 1;
    }
    cells
}

impl Row {
    /// The fields of the struct that stands for cell `index` of this row in
    /// the view: "value_i", "value_f" and "value_s", with the cell's integer,
    /// float and string. `None` when there is no such cell.
    pub fn cell_fields(&self, index: usize) -> (r: Option<Vec<(String, ValueOut)>>)
        ensures
            r is None <==> index >= self.cells.len(),
            r matches Some(f) ==> {
                &&& f.len() == 3
                &&& f[0].0@ == "value_i"@ && f[0].1 == ValueOut::Int(self.cells[index as int].value_i)
                &&& f[1].0@ == "value_f"@ && f[1].1 == ValueOut::Number(self.cells[index as int].value_f)
                &&& f[2].0@ == "value_s"@
                &&& f[2].1 matches ValueOut::Str(s) && s@ == self.cells[index as int].value_s@
            },
    {
        if index < self.cells.len() {
            let c = &self.cells[index];
            let mut f: Vec<(String, ValueOut)> = Vec::new();
            f.push((String::from_str("value_i"), ValueOut::Int(c.value_i)));
            f.push((String::from_str("value_f"), ValueOut::Number(c.value_f)));
            f.push((String::from_str("value_s"), ValueOut::Str(c.value_s.clone())));
            Some(f)
        } else {
            None
        }
    }
}

impl CellGrid {
    /// Every row is addressed by its position, so that an edit made in the
    /// view of row `i` reaches row `i`.
    pub open spec fn addressed(self) -> bool {
        forall|i: int| 0 <= i < self.rows.len() ==> (#[trigger] self.rows[i]).row == i
    }

    /// Cell (`r`, `c`) exists.
    pub open spec fn in_range(self, r: int, c: int) -> bool {
        0 <= r < self.rows.len() && 0 <= c < self.rows[r].cells.len()
    }

    /// The 1-based position (`row1`, `col1`) from the host names a cell.
    pub open spec fn locates(self, row1: i32, col1: i32) -> bool {
        row1 >= 1 && col1 >= 1 && self.in_range(row1 - 1, col1 - 1)
    }

    /// `v` is what `cell_report(row1, col1)` gives: the payload of the cell
    /// there as a record of kind "Unknown", or an empty such record.
    pub open spec fn reports(self, row1: i32, col1: i32, v: JRvalue) -> bool {
        if self.locates(row1, col1) {
            v.is_plain(
                "Unknown"@,
                self.cell(row1 - 1, col1 - 1).value_i,
                self.cell(row1 - 1, col1 - 1).value_f,
                self.cell(row1 - 1, col1 - 1).value_s@,
            )
        } else {
            v.is_plain("Unknown"@, 0, 0, Seq::empty())
        }
    }

    /// Cell (`r`, `c`).
    pub open spec fn cell(self, r: int, c: int) -> SlintValue {
        self.rows[r].cells[c]
    }

    /// Every cell but (`r`, `c`) is the same in `self` and `other`, and both
    /// have the same shape and row indices.
    pub open spec fn same_but(self, other: CellGrid, r: int, c: int) -> bool {
        &&& self.rows.len() == other.rows.len()
        &&& forall|i: int| 0 <= i < self.rows.len() ==> {
            &&& (#[trigger] self.rows[i]).row == other.rows[i].row
            &&& self.rows[i].cells.len() == other.rows[i].cells.len()
        }
        &&& forall|i: int, j: int| #![trigger self.rows[i].cells[j]]
            self.in_range(i, j) && !(i == r && j == c) ==> self.rows[i].cells[j] == other.rows[i].cells[j]
    }

    /// A model of `nrows` rows of `ncols` fresh cells each; row `i` is
    /// addressed as `i`.
    pub fn new(nrows: usize, ncols: usize) -> (g: Self)
        ensures
            g.rows.len() == nrows,
            g.addressed(),
            forall|i: int| 0 <= i < nrows ==> (#[trigger] g.rows[i]).row == i && g.rows[i].cells.len() == ncols,
            forall|i: int, j: int| 0 <= i < nrows && 0 <= j < ncols ==> (#[trigger] g.rows[i].cells[j]).is_default(),
    {
        let mut rows: Vec<Row> = Vec::new();
        let mut i: usize = 0;
        while i < nrows
            invariant
                i <= nrows,
                rows.len() == i,
                forall|k: int| 0 <= k < i ==> (#[trigger] rows[k]).row == k && rows[k].cells.len() == ncols,
                forall|k: int, j: int| 0 <= k < i && 0 <= j < ncols ==> (#[trigger] rows[k].cells[j]).is_default(),
            decreases nrows - i,
        {
            rows.push(Row { row: i, cells: default_cells(ncols) });
            i = i + 1;
        }
        CellGrid { rows }
    }

    /// The number of rows.
    pub fn row_count(&self) -> (n: usize)
        ensures
            n == self.rows.len(),
    {
        self.rows.len()
    }

    /// The number of cells of the template row; 0 when there are no rows.
    pub fn col_count(&self) -> (n: usize)
        ensures
            n == (if self.rows.len() > 0 { self.rows[0].cells.len() } else { 0 }),
    {
        let mut r: usize = 0;
        if self.rows.len() > 0 {
            r = self.rows[0].cells.len();
        }
        r
    }

    /// Appends a row with the cells of `row`, addressed by its position.
    pub fn push_row(&mut self, row: Row)
        ensures
            final(self).rows.len() == old(self).rows.len() + 1,
            forall|i: int| 0 <= i < old(self).rows.len() ==> #[trigger] final(self).rows[i] == old(self).rows[i],
            final(self).rows@.last().row == old(self).rows.len(),
            final(self).rows@.last().cells == row.cells,
            old(self).addressed() ==> final(self).addressed(),
    {
        let index = self.rows.len();
        self.rows.push(Row { row: index, cells: row.cells });
    }

    /// Removes row `index`, unless it is the template row or no such row
    /// exists; says whether it removed one. The rows behind it move up one
    /// position and are addressed by their new positions.
    pub fn remove_row(&mut self, index: usize) -> (removed: bool)
        ensures
            removed == (0 < index < old(self).rows.len()),
            removed ==> {
                &&& final(self).rows.len() == old(self).rows.len() - 1
                &&& forall|i: int| 0 <= i < index ==> #[trigger] final(self).rows[i] == old(self).rows[i]
                &&& forall|i: int| index <= i < final(self).rows.len() ==> {
                    &&& (#[trigger] final(self).rows[i]).cells == old(self).rows[i + 1].cells
                    &&& final(self).rows[i].row == i
                }
            },
            !removed ==> final(self).rows@ == old(self).rows@,
            old(self).addressed() ==> final(self).addressed(),
    {
        if index > 0 && index < self.rows.len() {
            let ghost orig = self.rows@;
            self.rows.remove(index);
            let mut i: usize = index;
            while i < self.rows.len()
                invariant
                    0 < index <= i <= self.rows.len(),
                    self.rows.len() == orig.len() - 1,
                    forall|j: int| 0 <= j < index ==> #[trigger] self.rows[j] == orig[j],
                    forall|j: int| index <= j < i ==> (#[trigger] self.rows[j]).cells == orig[j + 1].cells
                        && self.rows[j].row == j,
                    forall|j: int| i <= j < self.rows.len() ==> #[trigger] self.rows[j] == orig[j + 1],
                decreases self.rows.len() - i,
            {
                self.rows[i].row = i;
                i = i + 1;
            }
            true
        } else {
            false
        }
    }

    /// Removes every row but the template row.
    pub fn clear_rows(&mut self)
        ensures
            old(self).rows.len() == 0 ==> final(self).rows@ == old(self).rows@,
            old(self).rows.len() > 0 ==> final(self).rows@ == seq![old(self).rows@[0]],
            old(self).addressed() ==> final(self).addressed(),
    {
        let n = self.rows.len();
        let ghost orig = self.rows@;
        let mut k: usize = 1;
        while k < n
            invariant
                n == orig.len(),
                1 <= k <= n || n == 0,
                n > 0 ==> self.rows.len() == n - k + 1 && self.rows[0] == orig[0],
                n == 0 ==> self.rows@ == orig,
            decreases n - k,
        {
            let removed = self.remove_row(1);
            assert(removed);
            k = k + 1;
        }
        if n > 0 {
            assert(self.rows@ =~= seq![orig[0]]);
        }
    }

    /// The payload of cell (`row`, `col`) as a record of kind "Unknown", or
    /// `None` when there is no such cell.
    pub fn get_cell_value(&self, row: usize, col: usize) -> (r: Option<JRvalue>)
        ensures
            r matches Some(v) ==> self.in_range(row as int, col as int) && v.is_plain(
                "Unknown"@,
                self.cell(row as int, col as int).value_i,
                self.cell(row as int, col as int).value_f,
                self.cell(row as int, col as int).value_s@,
            ),
            r is None ==> !self.in_range(row as int, col as int),
    {
        if row < self.rows.len() && col < self.rows[row].cells.len() {
            let c = &self.rows[row].cells[col];
            Some(JRvalue::plain("Unknown", c.value_i, c.value_f, c.value_s.clone()))
        } else {
            None
        }
    }

    /// The payload of the cell at the 1-based position (`row1`, `col1`) as a
    /// record of kind "Unknown"; an empty such record when there is no such
    /// cell.
    pub fn cell_report(&self, row1: i32, col1: i32) -> (v: JRvalue)
        ensures
            self.reports(row1, col1, v),
    {
        match (cell_index(row1), cell_index(col1)) {
            (Some(r), Some(c)) => match self.get_cell_value(r, c) {
                Some(v) => v,
                None => JRvalue::new_undefined(),
            },
            _ => JRvalue::new_undefined(),
        }
    }

    /// The arguments with which the host's callback is asked about setting
    /// cell (`row`, `col`) to `new_text`: the row, the column, the new text
    /// and the current text. `None` when there is no such cell.
    pub fn update_request(&self, row: usize, col: usize, new_text: &String) -> (r: Option<Vec<ValueOut>>)
        ensures
            r is None <==> !self.in_range(row as int, col as int),
            r matches Some(a) ==> {
                &&& a.len() == 4
                &&& a[0] == ValueOut::Int(row as i32)
                &&& a[1] == ValueOut::Int(col as i32)
                &&& a[2] matches ValueOut::Str(s) && s@ == new_text@
                &&& a[3] matches ValueOut::Str(s) && s@ == self.cell(row as int, col as int).value_s@
            },
    {
        if row < self.rows.len() && col < self.rows[row].cells.len() {
            let mut a: Vec<ValueOut> = Vec::new();
            a.push(ValueOut::Int(row as i32));
            a.push(ValueOut::Int(col as i32));
            a.push(ValueOut::Str(new_text.clone()));
            a.push(ValueOut::Str(self.rows[row].cells[col].value_s.clone()));
            Some(a)
        } else {
            None
        }
    }

    /// Sets cell (`row`, `col`) to the payload of `new_value`, unless the
    /// host's `reply` refuses the edit. `None` when there is no such cell;
    /// otherwise whether the cell was set.
    pub fn update_cell(&mut self, row: usize, col: usize, new_value: &JRvalue, reply: &JRvalue) -> (r: Option<bool>)
        ensures
            r is None <==> !old(self).in_range(row as int, col as int),
            r == Some(true) <==> old(self).in_range(row as int, col as int) && accepts(*reply),
            r == Some(true) ==> final(self).same_but(*old(self), row as int, col as int) && holds_payload(
                final(self).cell(row as int, col as int),
                *new_value,
                old(self).cell(row as int, col as int).value_slvi,
            ),
            r != Some(true) ==> *final(self) == *old(self),
    {
        if !(row < self.rows.len() && col < self.rows[row].cells.len()) {
            return None;
        }
        if reply.magic == JRMAGIC && text_is(&reply.rtype, "Bool") && reply.int_value == 0 {
            return Some(false);
        }
        self.rows[row].cells[col].value_s = new_value.string_value.clone();
        self.rows[row].cells[col].value_i = new_value.int_value;
        self.rows[row].cells[col].value_f = new_value.float_value;
        Some(true)
    }

    /// Sets the cell at the 1-based position (`row1`, `col1`) to the payload
    /// of `new_value` without asking the host, since the host itself asks for
    /// the change; says whether such a cell exists (and was set).
    pub fn set_cell_value(&mut self, row1: i32, col1: i32, new_value: &JRvalue) -> (set: bool)
        ensures
            set == old(self).locates(row1, col1),
            set ==> final(self).same_but(*old(self), row1 - 1, col1 - 1) && holds_payload(
                final(self).cell(row1 - 1, col1 - 1),
                *new_value,
                old(self).cell(row1 - 1, col1 - 1).value_slvi,
            ),
            !set ==> *final(self) == *old(self),
    {
        match (cell_index(row1), cell_index(col1)) {
            (Some(r), Some(c)) => {
                let reply = JRvalue::new_bool(true);
                let res = self.update_cell(r, c, new_value, &reply);
                res == Some(true)
            },
            _ => false,
        }
    }

    /// Appends a row of `col_count()` fresh cells, addressed by its position,
    /// and finds it there.
    pub fn add_row(&mut self) -> (r: Option<()>)
        requires
            old(self).rows.len() < usize::MAX,
        ensures
            r is Some,
            old(self).addressed() ==> final(self).addressed(),
            final(self).rows.len() == old(self).rows.len() + 1,
            forall|i: int| 0 <= i < old(self).rows.len() ==> #[trigger] final(self).rows[i] == old(self).rows[i],
            final(self).rows@.last().row == old(self).rows.len(),
            final(self).rows@.last().cells.len() == (if old(self).rows.len() > 0 { old(self).rows[0].cells.len() } else { 0 }),
            forall|j: int| 0 <= j < final(self).rows@.last().cells.len() ==> (#[trigger] final(self).rows@.last().cells[j]).is_default(),
    {
        let row_count = self.row_count();
        let col_count = self.col_count();
        let row = Row { row: row_count, cells: default_cells(col_count) };
        self.rows.push(row);
        if row_count < self.rows.len() {
            Some(())
        } else {
            None
        }
    }

    /// Appends a row made of the records of `new_values` that stand for a
    /// value (see `convertible` and `cell_of`), addressed by its position.
    /// The model must have its template row.
    pub fn push_row_values(&mut self, new_values: &[JRvalue])
        requires
            old(self).rows.len() > 0,
            old(self).rows.len() < usize::MAX,
        ensures
            final(self).rows.len() == old(self).rows.len() + 1,
            forall|i: int| 0 <= i < old(self).rows.len() ==> #[trigger] final(self).rows[i] == old(self).rows[i],
            final(self).rows@.last().row == old(self).rows.len(),
            final(self).rows@.last().cells.len() == convertible_values(new_values@).len(),
            old(self).addressed() ==> final(self).addressed(),
            forall|j: int| 0 <= j < final(self).rows@.last().cells.len() ==>
                cell_of(#[trigger] final(self).rows@.last().cells[j], convertible_values(new_values@)[j]),
    {
        let row_count = self.row_count();
        let mut values: Vec<SlintValue> = Vec::new();
        let mut index: usize = 0;
        while index < new_values.len()
            invariant
                index <= new_values.len(),
                values.len() == convertible_values(new_values@.take(index as int)).len(),
                forall|j: int| 0 <= j < values.len() ==>
                    cell_of(#[trigger] values[j], convertible_values(new_values@.take(index as int))[j]),
            decreases new_values.len() - index,
        {
            let value = &new_values[index];
            let ghost before = values@;
            if value.magic == JRMAGIC {
                if text_is(&value.rtype, "Bool") {
                    let mut sv = SlintValue::new();
                    sv.value_i = value.int_value;
                    values.push(sv);
                } else if text_is(&value.rtype, "Integer") {
                    let mut sv = SlintValue::new();
                    sv.value_i = value.int_value;
                    values.push(sv);
                } else if text_is(&value.rtype, "Float") {
                    let mut sv = SlintValue::new();
                    sv.value_f = value.float_value;
                    values.push(sv);
                } else if text_is(&value.rtype, "String") {
                    let mut sv = SlintValue::new();
                    sv.value_s = value.string_value.clone();
                    values.push(sv);
                } else if text_is(&value.rtype, "Unknown") {
                    let mut sv = SlintValue::new();
                    sv.value_i = value.int_value;
                    sv.value_f = value.float_value;
                    sv.value_s = value.string_value.clone();
                    values.push(sv);
                }
            }
            proof {
                lemma_convertible_step(new_values@, index as int);
            }
            index = index + 1;
        }
        proof {
            assert(new_values@.take(new_values.len() as int) =~= new_values@);
        }
        self.rows.push(Row { row: row_count, cells: values });
    }

    /// The list-view items made of the strings of the cells of all rows but
    /// the template row, row after row.
    pub fn list_view_items(&self) -> (r: Vec<StandardListViewItem>)
        ensures
            r@ == texts_after_template(self.rows@, self.rows.len() as int).map_values(|t: Seq<char>| list_item(t)),
    {
        let mut out: Vec<StandardListViewItem> = Vec::new();
        let mut i: usize = 1;
        while i < self.rows.len()
            invariant
                1 <= i,
                i <= self.rows.len() || self.rows.len() == 0,
                self.rows.len() == 0 ==> i == 1,
                out@ =~= texts_after_template(self.rows@, i as int).map_values(|t: Seq<char>| list_item(t)),
            decreases self.rows.len() - i,
        {
            let cells = &self.rows[i].cells;
            let ghost start = out@;
            let mut j: usize = 0;
            while j < cells.len()
                invariant
                    j <= cells.len(),
                    i < self.rows.len(),
                    cells == self.rows[i as int].cells,
                    out@ =~= start + row_texts(self.rows[i as int]).take(j as int).map_values(|t: Seq<char>| list_item(t)),
                decreases cells.len() - j,
            {
                let item = list_item_from_str(cells[j].value_s.as_str());
                out.push(item);
                assert(row_texts(self.rows[i as int]).take(j as int + 1) =~= row_texts(self.rows[i as int]).take(j as int).push(cells[j as int].value_s@));
                j = j + 1;
            }
            assert(row_texts(self.rows[i as int]).take(j as int) =~= row_texts(self.rows[i as int]));
            assert(texts_after_template(self.rows@, i as int + 1) == texts_after_template(self.rows@, i as int) + row_texts(self.rows[i as int]));
            i = i + 1;
        }
        assert(texts_after_template(self.rows@, i as int) == texts_after_template(self.rows@, self.rows.len() as int));
        out
    }
}

} // verus!
