use slint::language::StandardListViewItem;
use slintwrapper::cells::{cell_index, default_callback_reply, edit_answer, edit_value, CellGrid, EditAnswer, Row};
use slintwrapper::jrvalue::{JRvalue, ValueOut};
use slintwrapper::print_type_of;
use slintwrapper::slint_value::{SlintValue, VecInto};
use slintwrapper::JRMAGIC;

fn record(tag: &str, i: i32, f: f64, s: &str) -> JRvalue {
    JRvalue {
        magic: JRMAGIC,
        rtype: tag.to_string(),
        int_value: i,
        float_value: f.to_bits(),
        string_value: s.to_string(),
        width: 0,
        height: 0,
        elsize: 0,
    }
}

fn texts(g: &CellGrid) -> Vec<Vec<String>> {
    g.rows.iter().map(|r| r.cells.iter().map(|c| c.value_s.clone()).collect()).collect()
}

#[test]
fn new_grid_shape() {
    let g = CellGrid::new(3, 2);
    assert_eq!(g.row_count(), 3);
    assert_eq!(g.col_count(), 2);
    for (i, r) in g.rows.iter().enumerate() {
        assert_eq!(r.row, i);
        assert_eq!(r.cells.len(), 2);
        for c in &r.cells {
            assert_eq!(c.value_s, "");
            assert_eq!(c.value_i, 0);
            assert_eq!(c.value_f, 0);
            assert_eq!(c.value_slvi, StandardListViewItem::from(""));
        }
    }
    assert_eq!(CellGrid::new(0, 5).col_count(), 0);
}

#[test]
fn template_row_is_never_removed() {
    let mut g = CellGrid::new(3, 1);
    assert!(!g.remove_row(0));
    assert!(!g.remove_row(3));
    assert_eq!(g.row_count(), 3);
    g.set_cell_value(3, 1, &record("Unknown", 0, 0.0, "third"));
    assert!(g.remove_row(1));
    assert_eq!(g.row_count(), 2);
    assert_eq!(g.rows[1].cells[0].value_s, "third");
}

#[test]
fn clear_rows_keeps_template() {
    let mut g = CellGrid::new(4, 2);
    g.set_cell_value(1, 1, &record("Unknown", 0, 0.0, "head"));
    g.clear_rows();
    assert_eq!(g.row_count(), 1);
    assert_eq!(g.rows[0].cells[0].value_s, "head");
    let mut empty = CellGrid::new(0, 0);
    empty.clear_rows();
    assert_eq!(empty.row_count(), 0);
}

#[test]
fn cell_read_after_write_one_based() {
    let mut g = CellGrid::new(2, 3);
    let v = record("Unknown", 7, 1.5, "x");
    assert!(g.set_cell_value(2, 3, &v));
    let r = g.cell_report(2, 3);
    assert_eq!(r.rtype, "Unknown");
    assert_eq!(r.int_value, 7);
    assert_eq!(f64::from_bits(r.float_value), 1.5);
    assert_eq!(r.string_value, "x");
    let other = g.cell_report(1, 1);
    assert_eq!(other.string_value, "");
    assert_eq!(other.int_value, 0);
}

#[test]
fn out_of_range_positions() {
    let mut g = CellGrid::new(2, 2);
    assert!(!g.set_cell_value(0, 1, &record("String", 0, 0.0, "no")));
    assert!(!g.set_cell_value(3, 1, &record("String", 0, 0.0, "no")));
    assert!(!g.set_cell_value(1, -4, &record("String", 0, 0.0, "no")));
    assert_eq!(texts(&g), vec![vec!["", ""], vec!["", ""]]);
    assert_eq!(g.cell_report(0, 0), JRvalue::new_undefined());
    assert_eq!(g.cell_report(5, 1), JRvalue::new_undefined());
    assert_eq!(g.get_cell_value(2, 0), None);
    assert_eq!(cell_index(1), Some(0));
    assert_eq!(cell_index(0), None);
    assert_eq!(cell_index(i32::MIN), None);
}

#[test]
fn update_request_arguments() {
    let mut g = CellGrid::new(2, 2);
    g.set_cell_value(2, 2, &record("String", 0, 0.0, "old"));
    let args = g.update_request(1, 1, &"new".to_string()).unwrap();
    assert_eq!(
        args,
        vec![
            ValueOut::Int(1),
            ValueOut::Int(1),
            ValueOut::Str("new".to_string()),
            ValueOut::Str("old".to_string())
        ]
    );
    assert_eq!(g.update_request(2, 0, &"new".to_string()), None);
}

#[test]
fn refused_edit_changes_nothing() {
    let mut g = CellGrid::new(1, 1);
    let edit = edit_value("typed".to_string());
    assert_eq!(g.update_cell(0, 0, &edit, &default_callback_reply()), Some(false));
    assert_eq!(g.rows[0].cells[0].value_s, "");
    assert_eq!(g.update_cell(0, 0, &edit, &JRvalue::new_bool(true)), Some(true));
    assert_eq!(g.rows[0].cells[0].value_s, "typed");
    // a reply of another kind does not refuse
    let mut g2 = CellGrid::new(1, 1);
    assert_eq!(g2.update_cell(0, 0, &edit, &record("String", 0, 0.0, "")), Some(true));
    assert_eq!(g2.update_cell(1, 0, &edit, &JRvalue::new_bool(true)), None);
}

#[test]
fn edit_resets_numbers() {
    let mut g = CellGrid::new(1, 1);
    g.set_cell_value(1, 1, &record("Unknown", 5, 2.0, "a"));
    let edit = edit_value("b".to_string());
    assert_eq!(edit.rtype, "Unknown");
    g.update_cell(0, 0, &edit, &JRvalue::new_bool(true));
    let c = &g.rows[0].cells[0];
    assert_eq!(c.value_s, "b");
    assert_eq!(c.value_i, 0);
    assert_eq!(c.value_f, 0);
}

#[test]
fn push_row_converts_records() {
    let mut g = CellGrid::new(1, 2);
    let mut unmarked = record("Integer", 9, 0.0, "");
    unmarked.magic = 0;
    let values = vec![
        record("Bool", 1, 0.0, "ignored"),
        record("Integer", 42, 0.0, ""),
        record("Float", 0, 3.5, ""),
        record("String", 3, 0.0, "txt"),
        record("Unknown", 4, 4.5, "all"),
        record("Image", 1, 0.0, ""),
        unmarked,
    ];
    g.push_row_values(&values);
    assert_eq!(g.row_count(), 2);
    let r = &g.rows[1];
    assert_eq!(r.row, 1);
    assert_eq!(r.cells.len(), 5);
    assert_eq!((r.cells[0].value_i, r.cells[0].value_s.as_str()), (1, ""));
    assert_eq!(r.cells[1].value_i, 42);
    assert_eq!(f64::from_bits(r.cells[2].value_f), 3.5);
    assert_eq!((r.cells[3].value_i, r.cells[3].value_s.as_str()), (0, "txt"));
    assert_eq!(
        (r.cells[4].value_i, f64::from_bits(r.cells[4].value_f), r.cells[4].value_s.as_str()),
        (4, 4.5, "all")
    );
}

#[test]
fn add_row_appends_a_row_addressed_by_position() {
    let mut g = CellGrid::new(2, 3);
    assert_eq!(g.add_row(), Some(()));
    assert_eq!(g.row_count(), 3);
    assert_eq!(g.rows[2].row, 2);
    assert_eq!(g.rows[2].cells.len(), 3);
}

#[test]
fn list_view_items_skip_template() {
    let mut g = CellGrid::new(3, 2);
    g.set_cell_value(1, 1, &record("String", 0, 0.0, "header"));
    g.set_cell_value(2, 1, &record("String", 0, 0.0, "a"));
    g.set_cell_value(2, 2, &record("String", 0, 0.0, "b"));
    g.set_cell_value(3, 1, &record("String", 0, 0.0, "c"));
    let items = g.list_view_items();
    let expected: Vec<StandardListViewItem> =
        ["a", "b", "c", ""].iter().map(|s| StandardListViewItem::from(*s)).collect();
    assert_eq!(items, expected);
    assert!(CellGrid::new(0, 0).list_view_items().is_empty());
}

#[test]
fn slint_value_conversions() {
    let d = SlintValue::default();
    assert_eq!(d.value_s, "");
    assert_eq!(d.value_slvi, StandardListViewItem::from(""));
    let item = StandardListViewItem::from("row");
    let sv = SlintValue::from(item.clone());
    assert_eq!(sv.value_s, "");
    assert_eq!(sv.value_i, 0);
    assert_eq!(StandardListViewItem::from(sv), item);
    let items = vec![StandardListViewItem::from("x"), StandardListViewItem::from("y")];
    let values: Vec<SlintValue> = items.clone().vec_into();
    assert_eq!(values.len(), 2);
    assert_eq!(values[0].value_slvi, items[0]);
    assert_eq!(values[1].value_slvi, items[1]);
}

#[test]
fn print_type_of_has_no_effect() {
    print_type_of(&3u8);
}

#[test]
fn cell_fields_describe_the_cell() {
    let mut g = CellGrid::new(1, 2);
    g.set_cell_value(1, 2, &record("Unknown", 3, 0.25, "q"));
    let f = g.rows[0].cell_fields(1).unwrap();
    assert_eq!(
        f,
        vec![
            ("value_i".to_string(), ValueOut::Int(3)),
            ("value_f".to_string(), ValueOut::Number(0.25f64.to_bits())),
            ("value_s".to_string(), ValueOut::Str("q".to_string())),
        ]
    );
    assert_eq!(g.rows[0].cell_fields(2), None);
}

#[test]
fn removal_readdresses_following_rows() {
    let mut g = CellGrid::new(4, 1);
    g.set_cell_value(3, 1, &record("String", 0, 0.0, "c"));
    g.set_cell_value(4, 1, &record("String", 0, 0.0, "d"));
    assert!(g.remove_row(1));
    let addresses: Vec<usize> = g.rows.iter().map(|r| r.row).collect();
    assert_eq!(addresses, vec![0, 1, 2]);
    // an edit addressed by the moved row's stored address reaches that row
    let target = g.rows[1].row;
    assert_eq!(g.update_cell(target, 0, &edit_value("C".to_string()), &JRvalue::new_bool(true)), Some(true));
    assert_eq!(g.rows[1].cells[0].value_s, "C");
    assert_eq!(g.rows[2].cells[0].value_s, "d");
}

#[test]
fn appended_rows_are_addressed_by_position() {
    let mut g = CellGrid::new(1, 1);
    g.push_row_values(&[record("String", 0, 0.0, "p")]);
    g.push_row(Row { row: 99, cells: vec![SlintValue::default()] });
    assert_eq!(g.add_row(), Some(()));
    let addresses: Vec<usize> = g.rows.iter().map(|r| r.row).collect();
    assert_eq!(addresses, vec![0, 1, 2, 3]);
    let target = g.rows[1].row;
    assert_eq!(g.update_cell(target, 0, &edit_value("q".to_string()), &JRvalue::new_bool(true)), Some(true));
    assert_eq!(g.rows[1].cells[0].value_s, "q");
}

#[test]
fn edit_answer_choices() {
    match edit_answer(true, true) {
        EditAnswer::Fixed(v) => assert_eq!(v, JRvalue::new_bool(true)),
        EditAnswer::AskHost => panic!("a skipped edit does not ask the host"),
    }
    match edit_answer(false, false) {
        EditAnswer::Fixed(v) => assert_eq!(v, default_callback_reply()),
        EditAnswer::AskHost => panic!("no callback to ask"),
    }
    assert!(matches!(edit_answer(false, true), EditAnswer::AskHost));
}

#[test]
fn cell_values_into_list_items() {
    let mut a = SlintValue::default();
    a.value_slvi = StandardListViewItem::from("a");
    let values = vec![a, SlintValue::default()];
    let items: Vec<StandardListViewItem> = values.vec_into();
    assert_eq!(items, vec![StandardListViewItem::from("a"), StandardListViewItem::from("")]);
}
