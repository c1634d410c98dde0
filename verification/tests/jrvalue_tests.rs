use slintwrapper::error_state::ErrorState;
use slintwrapper::jrvalue::{
    bridge_arguments, image_byte_len, value_number, value_string, value_type_name, JRvalue, ValueIn,
    ValueOut,
};
use slintwrapper::{r_get_magic, JRMAGIC};

fn record(tag: &str, i: i32, f: f64, s: &str) -> JRvalue {
    JRvalue {
        magic: JRMAGIC,
        rtype: tag.to_string(),
        int_value: i,
        float_value: f.to_bits(),
        string_value: s.to_string(),
        width: 0,
        height: 0,
        elsize: 0,
    }
}

#[test]
fn magic_is_the_documented_marker() {
    assert_eq!(r_get_magic(), 123456);
    assert_eq!(JRMAGIC, 123456);
}

#[test]
fn new_bool_and_undefined_records() {
    let t = JRvalue::new_bool(true);
    assert_eq!(t.magic, JRMAGIC);
    assert_eq!(t.rtype, "Bool");
    assert_eq!(t.int_value, 1);
    assert_eq!(t.string_value, "");
    let f = JRvalue::new_bool(false);
    assert_eq!(f.int_value, 0);
    let u = JRvalue::new_undefined();
    assert_eq!(u.rtype, "Unknown");
    assert_eq!(u.int_value, 0);
    assert_eq!(u.float_value, 0);
    assert_eq!(u.string_value, "");
}

#[test]
fn from_value_keeps_strings_booleans_numbers() {
    let s = JRvalue::from_value(&ValueIn::Str("hello".to_string()));
    assert_eq!(s.rtype, "String");
    assert_eq!(s.string_value, "hello");
    let b = JRvalue::from_value(&ValueIn::Bool(true));
    assert_eq!(b.rtype, "Bool");
    assert_eq!(b.int_value, 1);
    let n = JRvalue::from_value(&ValueIn::Number(2.5f64.to_bits()));
    assert_eq!(n.rtype, "Float");
    assert_eq!(f64::from_bits(n.float_value), 2.5);
    let o = JRvalue::from_value(&ValueIn::Other);
    assert_eq!(o.rtype, "Unknown");
    let v = JRvalue::from_value(&ValueIn::Void);
    assert_eq!(v, JRvalue::new_undefined());
}

#[test]
fn to_value_by_kind() {
    assert_eq!(record("Bool", 2, 0.0, "").to_value(), ValueOut::Bool(true));
    assert_eq!(record("Bool", 0, 0.0, "").to_value(), ValueOut::Bool(false));
    assert_eq!(record("Integer", -7, 0.0, "").to_value(), ValueOut::Int(-7));
    assert_eq!(record("Float", 0, 1.25, "").to_value(), ValueOut::Number(1.25f64.to_bits()));
    assert_eq!(record("String", 0, 0.0, "abc").to_value(), ValueOut::Str("abc".to_string()));
    assert_eq!(record("Unknown", 3, 0.0, "x").to_value(), ValueOut::Void);
    assert_eq!(record("Image", 3, 0.0, "x").to_value(), ValueOut::Void);
}

#[test]
fn unmarked_record_is_no_value() {
    let mut r = record("Integer", 5, 0.0, "");
    r.magic = 1;
    assert_eq!(r.to_value(), ValueOut::Void);
    let mut e = ErrorState::new();
    assert_eq!(r.callback_reply(&mut e), ValueOut::Void);
    assert!(e.state);
}

#[test]
fn value_round_trip_law_examples() {
    for v in [
        ValueIn::Bool(false),
        ValueIn::Bool(true),
        ValueIn::Number((-3.5f64).to_bits()),
        ValueIn::Str("round".to_string()),
    ] {
        let back = JRvalue::from_value(&v).to_value();
        let expected = match &v {
            ValueIn::Bool(b) => ValueOut::Bool(*b),
            ValueIn::Number(bits) => ValueOut::Number(*bits),
            ValueIn::Str(s) => ValueOut::Str(s.clone()),
            _ => ValueOut::Void,
        };
        assert_eq!(back, expected);
    }
    assert_eq!(JRvalue::from_value(&ValueIn::Other).to_value(), ValueOut::Void);
}

#[test]
fn callback_reply_kinds() {
    let mut e = ErrorState::new();
    assert_eq!(record("Bool", 1, 0.0, "").callback_reply(&mut e), ValueOut::Bool(true));
    // only 1 counts as true for a callback's reply
    assert_eq!(record("Bool", 2, 0.0, "").callback_reply(&mut e), ValueOut::Bool(false));
    assert_eq!(record("String", 0, 0.0, "s").callback_reply(&mut e), ValueOut::Str("s".to_string()));
    assert_eq!(record("Integer", 9, 0.0, "").callback_reply(&mut e), ValueOut::Int(9));
    assert_eq!(record("Float", 0, 0.5, "").callback_reply(&mut e), ValueOut::Number(0.5f64.to_bits()));
    assert!(!e.state);
    assert_eq!(e.desc, "");
}

#[test]
fn callback_reply_images() {
    let mut e = ErrorState::new();
    let mut img = record("Image", 0, 0.0, "");
    img.width = 4;
    img.height = 2;
    img.elsize = 3;
    assert_eq!(img.callback_reply(&mut e), ValueOut::Image { width: 4, height: 2, channels: 3 });
    img.elsize = 4;
    assert_eq!(img.callback_reply(&mut e), ValueOut::Image { width: 4, height: 2, channels: 4 });
    assert!(!e.state);
    img.elsize = 2;
    assert_eq!(img.callback_reply(&mut e), ValueOut::Void);
    assert!(e.state);
    assert_eq!(e.desc, "r_set_callback:invalid or not implemented JRvalue type, return an empty/void");
}

#[test]
fn callback_reply_unsupported_kind_records_error() {
    let mut e = ErrorState::new();
    assert_eq!(record("Unknown", 0, 0.0, "").callback_reply(&mut e), ValueOut::Void);
    assert!(e.state);
    assert_eq!(e.desc, "r_set_callback:invalid or not implemented JRvalue type, return an empty/void");
}

#[test]
fn argument_accessors() {
    let args = vec![
        ValueIn::Str("a".to_string()),
        ValueIn::Number(4.0f64.to_bits()),
        ValueIn::Bool(true),
    ];
    assert_eq!(value_type_name(&args, 0), "String");
    assert_eq!(value_type_name(&args, 1), "Number");
    assert_eq!(value_type_name(&args, 2), "");
    assert_eq!(value_string(&args, 0), "a");
    assert_eq!(value_string(&args, 1), "");
    let nan = f64::NAN.to_bits();
    assert_eq!(f64::from_bits(value_number(&args, 1, nan)), 4.0);
    assert_eq!(value_number(&args, 0, nan), nan);
}

#[test]
fn bridge_arguments_are_the_first_two_strings() {
    let args = vec![ValueIn::Str("src-bridge".to_string()), ValueIn::Str("names".to_string())];
    let (a, b) = bridge_arguments(&args);
    assert_eq!(a, "src-bridge");
    assert_eq!(b, "names");
}

#[test]
fn image_byte_counts() {
    assert_eq!(image_byte_len(4, 2, 3), Some(24));
    assert_eq!(image_byte_len(0, 100, 4), Some(0));
    assert_eq!(image_byte_len(-1, 2, 3), None);
    assert_eq!(image_byte_len(1, 2, -3), None);
    if usize::BITS == 64 {
        assert_eq!(image_byte_len(i32::MAX, i32::MAX, 4), Some((i32::MAX as usize) * (i32::MAX as usize) * 4));
    }
}
