//! The value held by every cell of a model, and its conversions to and from
//! the items of a Slint list view.
use vstd::prelude::*;
use slint::language::StandardListViewItem;
use vstd::std_specs::convert::FromSpecImpl;

verus! {

/// An item of a Slint `StandardListView`.
#[verifier::external_type_specification]
#[verifier::external_body]
pub struct ExStandardListViewItem(StandardListViewItem);

/// The item that `StandardListViewItem::from(&str)` makes of a text with
/// these characters.
pub uninterp spec fn list_item(text: Seq<char>) -> StandardListViewItem;

/// `StandardListViewItem::from(&str)` of i-slint-core: the item whose text is
/// `text`. The result depends on the characters of `text` alone and is named
/// `list_item` of them.
#[verifier::external_body]
pub(crate) fn list_item_from_str(text: &str) -> (r: StandardListViewItem)
    ensures
        r == list_item(text@),
{
    StandardListViewItem::from(text)
}

/// The derived `Clone` of i-slint-core's `StandardListViewItem`: it clones the
/// item's only field, its text, so the copy is the same item.
pub assume_specification[ <StandardListViewItem as Clone>::clone ](
    item: &StandardListViewItem,
) -> (r: StandardListViewItem)
    ensures
        r == *item,
;

/// The value of a cell: a string, an integer, a float (`value_f`, the
/// IEEE-754 bits of its `f64` value) and a list-view item.
#[derive(Clone)]
pub struct SlintValue {
    pub value_s: String,
    pub value_i: i32,
    pub value_f: u64,
    pub value_slvi: StandardListViewItem,
}

impl SlintValue {
    /// The value of a fresh cell: empty string, zero numbers, the list item of
    /// the empty text.
    pub open spec fn is_default(self) -> bool {
        &&& self.value_s@ == Seq::<char>::empty()
        &&& self.value_i == 0
        &&& self.value_f == 0
        &&& self.value_slvi == list_item(""@)
    }

    /// A fresh cell value whose list item is `item`.
    pub open spec fn holds_item(self, item: StandardListViewItem) -> bool {
        &&& self.value_s@ == Seq::<char>::empty()
        &&& self.value_i == 0
        &&& self.value_f == 0
        &&& self.value_slvi == item
    }

    /// The value of a fresh cell.
    pub fn new() -> (r: Self)
        ensures
            r.is_default(),
    {
        SlintValue {
            value_s: String::new(),
            value_i: 0,
            value_f: 0,
            value_slvi: list_item_from_str(""),
        }
    }

    /// A fresh cell value whose list item is `item`.
    pub fn from_list_item(item: StandardListViewItem) -> (r: Self)
        ensures
            r.holds_item(item),
    {
        let mut sv = SlintValue::new();
        sv.value_slvi = item;
        sv
    }
}

impl Default for SlintValue {
    fn default() -> (r: Self)
        ensures
            r.is_default(),
    {
        SlintValue::new()
    }
}

impl From<SlintValue> for StandardListViewItem {
    fn from(item: SlintValue) -> (r: Self) {
        item.value_slvi
    }
}

impl FromSpecImpl<SlintValue> for StandardListViewItem {
    open spec fn obeys_from_spec() -> bool {
        true
    }

    open spec fn from_spec(item: SlintValue) -> Self {
        item.value_slvi
    }
}

impl From<StandardListViewItem> for SlintValue {
    /// A fresh cell value holding `item`.
    fn from(item: StandardListViewItem) -> (r: Self)
        ensures
            r.holds_item(item),
    {
        SlintValue::from_list_item(item)
    }
}

impl FromSpecImpl<StandardListViewItem> for SlintValue {
    /// A cell value is determined by its list item only up to which string
    /// object holds its (empty) text, so `from` is specified by its own
    /// `ensures` and not by `from_spec`.
    open spec fn obeys_from_spec() -> bool {
        false
    }

    open spec fn from_spec(item: StandardListViewItem) -> Self {
        choose|r: SlintValue| r.holds_item(item)
    }
}

/// Converts a vector element by element.
pub trait VecInto<T>: Sized {
    fn vec_into(self) -> Vec<T>;
}

impl VecInto<SlintValue> for Vec<StandardListViewItem> {
    /// Each list item becomes a fresh cell value holding it, in order.
    fn vec_into(self) -> (r: Vec<SlintValue>)
        ensures
            r.len() == self.len(),
            forall|i: int| 0 <= i < r.len() ==> #[trigger] r[i].holds_item(self[i]),
    {
        let ghost orig = self@;
        let mut rest = self;
        let mut out: Vec<SlintValue> = Vec::new();
        while rest.len() > 0
            invariant
                out.len() + rest.len() == orig.len(),
                rest@ == orig.skip(out.len() as int),
                forall|i: int| 0 <= i < out.len() ==> #[trigger] out[i].holds_item(orig[i]),
            decreases rest.len(),
        {
            let item = rest.remove(0);
            assert(item == orig[out.len() as int]);
            out.push(SlintValue::from(item));
            assert(rest@ =~= orig.skip(out.len() as int));
        }
        out
    }
}

impl VecInto<StandardListViewItem> for Vec<SlintValue> {
    /// Each cell value becomes its list item, in order.
    fn vec_into(self) -> (r: Vec<StandardListViewItem>)
        ensures
            r.len() == self.len(),
            forall|i: int| 0 <= i < r.len() ==> #[trigger] r[i] == self[i].value_slvi,
    {
        let ghost orig = self@;
        let mut rest = self;
        let mut out: Vec<StandardListViewItem> = Vec::new();
        while rest.len() > 0
            invariant
                out.len() + rest.len() == orig.len(),
                rest@ == orig.skip(out.len() as int),
                forall|i: int| 0 <= i < out.len() ==> #[trigger] out[i] == orig[i].value_slvi,
            decreases rest.len(),
        {
            let value = rest.remove(0);
            assert(value == orig[out.len() as int]);
            out.push(StandardListViewItem::from(value));
            assert(rest@ =~= orig.skip(out.len() as int));
        }
        out
    }
}

} // verus!
