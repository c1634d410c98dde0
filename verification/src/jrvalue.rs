//! The record exchanged with the host (`JRvalue`) and its conversions to and
//! from the values that Slint holds.
//!
//! Floating-point numbers travel through this module as the IEEE-754 bits of
//! their `f64` value: the library only stores and copies them.
use vstd::prelude::*;
use crate::JRMAGIC;
use crate::error_state::ErrorState;
use crate::text::text_is;
use vstd::string::*;

verus! {

/// A value as Slint hands it to the library, reduced to what the library reads.
#[derive(Clone, Debug, PartialEq)]
pub enum ValueIn {
    /// No value.
    Void,
    /// A boolean.
    Bool(bool),
    /// A number, given by the IEEE-754 bits of its `f64` value.
    Number(u64),
    /// A string.
    Str(String),
    /// Any other kind of value (image, model, struct, brush, ...).
    Other,
}

/// A value that the library asks the host to hand to Slint.
#[derive(Clone, Debug, PartialEq)]
pub enum ValueOut {
    /// No value.
    Void,
    /// A boolean.
    Bool(bool),
    /// A number whose value is this integer.
    Int(i32),
    /// A number, given by the IEEE-754 bits of its `f64` value.
    Number(u64),
    /// A string.
    Str(String),
    /// An image of `width` by `height` pixels with `channels` bytes per pixel
    /// (3 for RGB, 4 for RGBA), whose bytes the host supplies.
    Image { width: i32, height: i32, channels: i32 },
}

/// The record that carries a value between the host and the library.
///
/// `rtype` names the kind of value ("Bool", "Integer", "Float", "String",
/// "Image", "Unknown", "ErrorState"); a record is only taken into account when
/// `magic` equals `JRMAGIC`. The pixel buffer of an image stays with the host;
/// `width`, `height` and `elsize` describe it.
#[derive(Clone, Debug, PartialEq)]
pub struct JRvalue {
    pub magic: i32,
    pub rtype: String,
    pub int_value: i32,
    /// IEEE-754 bits of the `f64` value.
    pub float_value: u64,
    pub string_value: String,
    pub width: i32,
    pub height: i32,
    pub elsize: i32,
}

/// The message recorded when a callback's reply cannot be turned into a value.
pub open spec fn spec_invalid_reply_msg() -> Seq<char> {
    "r_set_callback:invalid or not implemented JRvalue type, return an empty/void"@
}

/// The names of the kinds of records are pairwise distinct.
pub proof fn lemma_kind_names_distinct()
    ensures
        "Bool"@ != "Integer"@,
        "Bool"@ != "Float"@,
        "Bool"@ != "String"@,
        "Bool"@ != "Image"@,
        "Bool"@ != "Unknown"@,
        "Integer"@ != "Float"@,
        "Integer"@ != "String"@,
        "Integer"@ != "Image"@,
        "Integer"@ != "Unknown"@,
        "Float"@ != "String"@,
        "Float"@ != "Image"@,
        "Float"@ != "Unknown"@,
        "String"@ != "Image"@,
        "String"@ != "Unknown"@,
        "Image"@ != "Unknown"@,
{
    reveal_strlit("Bool");
    reveal_strlit("Integer");
    reveal_strlit("Float");
    reveal_strlit("String");
    reveal_strlit("Image");
    reveal_strlit("Unknown");
    assert("Bool"@[0] != "Integer"@[0]);
    assert("Bool"@[0] != "Float"@[0]);
    assert("Bool"@[0] != "String"@[0]);
    assert("Bool"@[0] != "Image"@[0]);
    assert("Bool"@[0] != "Unknown"@[0]);
    assert("Integer"@[1] != "Float"@[1]);
    assert("Integer"@[0] != "String"@[0]);
    assert("Integer"@[1] != "Image"@[1]);
    assert("Integer"@[0] != "Unknown"@[0]);
    assert("Float"@[0] != "String"@[0]);
    assert("Float"@[0] != "Image"@[0]);
    assert("Float"@[0] != "Unknown"@[0]);
    assert("String"@[0] != "Image"@[0]);
    assert("String"@[0] != "Unknown"@[0]);
    assert("Image"@[0] != "Unknown"@[0]);
}

impl JRvalue {
    /// A valid record of kind `tag` with the given payload and no image.
    pub open spec fn is_plain(self, tag: Seq<char>, i: i32, f: u64, s: Seq<char>) -> bool {
        &&& self.magic == JRMAGIC
        &&& self.rtype@ == tag
        &&& self.int_value == i
        &&& self.float_value == f
        &&& self.string_value@ == s
        &&& self.width == 0
        &&& self.height == 0
        &&& self.elsize == 0
    }

    /// A valid record of kind `tag` with the given payload and no image.
    pub fn plain(tag: &str, i: i32, f: u64, s: String) -> (r: Self)
        ensures
            r.is_plain(tag@, i, f, s@),
    {
        JRvalue {
            magic: JRMAGIC,
            rtype: String::from_str(tag),
            int_value: i,
            float_value: f,
            string_value: s,
            width: 0,
            height: 0,
            elsize: 0,
        }
    }

    /// A record of kind "Bool" holding `b` as 1 or 0.
    pub fn new_bool(b: bool) -> (r: Self)
        ensures
            r.is_plain("Bool"@, if b { 1 } else { 0 }, 0, Seq::empty()),
    {
        let i: i32 = if b { 1 } else { 0 };
        Self::plain("Bool", i, 0, String::new())
    }

    /// A record of kind "Unknown" with an empty payload.
    pub fn new_undefined() -> (r: Self)
        ensures
            r.is_plain("Unknown"@, 0, 0, Seq::empty()),
    {
        Self::plain("Unknown", 0, 0, String::new())
    }

    /// What `from_value` makes of `v`.
    pub open spec fn from_value_spec(v: ValueIn, r: JRvalue) -> bool {
        match v {
            ValueIn::Str(s) => r.is_plain("String"@, 0, 0, s@),
            ValueIn::Bool(b) => r.is_plain("Bool"@, if b { 1 } else { 0 }, 0, Seq::empty()),
            ValueIn::Number(bits) => r.is_plain("Float"@, 0, bits, Seq::empty()),
            _ => r.is_plain("Unknown"@, 0, 0, Seq::empty()),
        }
    }

    /// The record that describes a Slint value: strings, booleans and numbers
    /// keep their payload, every other value becomes "Unknown".
    pub fn from_value(v: &ValueIn) -> (r: Self)
        ensures
            Self::from_value_spec(*v, r),
    {
        match v {
            ValueIn::Str(s) => Self::plain("String", 0, 0, s.clone()),
            ValueIn::Bool(b) => Self::new_bool(*b),
            ValueIn::Number(bits) => Self::plain("Float", 0, *bits, String::new()),
            _ => Self::new_undefined(),
        }
    }

    /// What `to_value` makes of `self`.
    pub open spec fn to_value_spec(self, r: ValueOut) -> bool {
        if self.magic != JRMAGIC {
            r is Void
        } else if self.rtype@ == "Bool"@ {
            r == ValueOut::Bool(self.int_value != 0)
        } else if self.rtype@ == "Integer"@ {
            r == ValueOut::Int(self.int_value)
        } else if self.rtype@ == "Float"@ {
            r == ValueOut::Number(self.float_value)
        } else if self.rtype@ == "String"@ {
            r matches ValueOut::Str(s) && s@ == self.string_value@
        } else {
            r is Void
        }
    }

    /// The Slint value that a record stands for: a valid record of kind
    /// "Bool", "Integer", "Float" or "String" gives that value, any other
    /// record gives no value.
    pub fn to_value(&self) -> (r: ValueOut)
        ensures
            self.to_value_spec(r),
    {
        if self.magic != JRMAGIC {
            ValueOut::Void
        } else if text_is(&self.rtype, "Bool") {
            ValueOut::Bool(self.int_value != 0)
        } else if text_is(&self.rtype, "Integer") {
            ValueOut::Int(self.int_value)
        } else if text_is(&self.rtype, "Float") {
            ValueOut::Number(self.float_value)
        } else if text_is(&self.rtype, "String") {
            ValueOut::Str(self.string_value.clone())
        } else {
            ValueOut::Void
        }
    }

    /// What `callback_reply` makes of `self`.
    pub open spec fn callback_reply_spec(self, r: ValueOut) -> bool {
        if self.magic != JRMAGIC {
            r is Void
        } else if self.rtype@ == "Bool"@ {
            r == ValueOut::Bool(self.int_value == 1)
        } else if self.rtype@ == "String"@ {
            r matches ValueOut::Str(s) && s@ == self.string_value@
        } else if self.rtype@ == "Integer"@ {
            r == ValueOut::Int(self.int_value)
        } else if self.rtype@ == "Float"@ {
            r == ValueOut::Number(self.float_value)
        } else if self.rtype@ == "Image"@ && (self.elsize == 3 || self.elsize == 4) {
            r == (ValueOut::Image { width: self.width, height: self.height, channels: self.elsize })
        } else {
            r is Void
        }
    }

    /// The value that a callback of the host returns to Slint, given the
    /// record the host replied with. A "Bool" reply is true only for 1; an
    /// "Image" reply is taken for 3 or 4 bytes per pixel. When the reply
    /// gives no value, the error state records that.
    pub fn callback_reply(&self, errors: &mut ErrorState) -> (r: ValueOut)
        ensures
            self.callback_reply_spec(r),
            r is Void ==> final(errors).state && final(errors).desc@ == spec_invalid_reply_msg(),
            !(r is Void) ==> *final(errors) == *old(errors),
    {
        if self.magic == JRMAGIC {
            if text_is(&self.rtype, "Bool") {
                return ValueOut::Bool(self.int_value == 1);
            } else if text_is(&self.rtype, "String") {
                return ValueOut::Str(self.string_value.clone());
            } else if text_is(&self.rtype, "Integer") {
                return ValueOut::Int(self.int_value);
            } else if text_is(&self.rtype, "Float") {
                return ValueOut::Number(self.float_value);
            } else if text_is(&self.rtype, "Image") {
                if self.elsize == 3 || self.elsize == 4 {
                    return ValueOut::Image {
                        width: self.width,
                        height: self.height,
                        channels: self.elsize,
                    };
                }
            }
        }
        errors.set(
            String::from_str("r_set_callback:invalid or not implemented JRvalue type, return an empty/void"),
            true,
        );
        ValueOut::Void
    }
}

/// The kind of argument `index` of a callback: "String", "Number", or the
/// empty string for any other kind.
pub fn value_type_name(args: &[ValueIn], index: i32) -> (r: String)
    requires
        0 <= index < args@.len(),
    ensures
        r@ == (match args@[index as int] {
            ValueIn::Str(_) => "String"@,
            ValueIn::Number(_) => "Number"@,
            _ => Seq::<char>::empty(),
        }),
{
    match &args[index as usize] {
        ValueIn::Str(_) => String::from_str("String"),
        ValueIn::Number(_) => String::from_str("Number"),
        _ => String::new(),
    }
}

/// The string that argument `index` of a callback holds; the empty string
/// when it holds no string.
pub fn value_string(args: &[ValueIn], index: i32) -> (r: String)
    requires
        0 <= index < args@.len(),
    ensures
        r@ == (match args@[index as int] {
            ValueIn::Str(s) => s@,
            _ => Seq::<char>::empty(),
        }),
{
    match &args[index as usize] {
        ValueIn::Str(s) => s.clone(),
        _ => String::new(),
    }
}

/// The number that argument `index` of a callback holds; `nan` when it holds
/// no number. Numbers are given by the IEEE-754 bits of their `f64` value.
pub fn value_number(args: &[ValueIn], index: i32, nan: u64) -> (r: u64)
    requires
        0 <= index < args@.len(),
    ensures
        r == (match args@[index as int] {
            ValueIn::Number(bits) => bits,
            _ => nan,
        }),
{
    match &args[index as usize] {
        ValueIn::Number(bits) => *bits,
        _ => nan,
    }
}

/// The source and target property names that a bridge callback is called
/// with: its first two arguments, which are strings.
pub fn bridge_arguments(args: &[ValueIn]) -> (r: (String, String))
    requires
        args@.len() >= 2,
        args@[0] is Str,
        args@[1] is Str,
    ensures
        args@[0] matches ValueIn::Str(s) && r.0@ == s@,
        args@[1] matches ValueIn::Str(s) && r.1@ == s@,
{
    let a = match &args[0] {
        ValueIn::Str(s) => s.clone(),
        _ => String::new(),
    };
    let b = match &args[1] {
        ValueIn::Str(s) => s.clone(),
        _ => String::new(),
    };
    (a, b)
}

/// The number of bytes of an image of `width` by `height` pixels with
/// `channels` bytes per pixel, or `None` when a dimension is negative or the
/// count does not fit in `usize`.
pub fn image_byte_len(width: i32, height: i32, channels: i32) -> (r: Option<usize>)
    ensures
        r matches Some(n) ==> width >= 0 && height >= 0 && channels >= 0 && n == width * height * channels,
        r is None ==> width < 0 || height < 0 || channels < 0 || width * height * channels > usize::MAX,
{
    if width < 0 || height < 0 || channels < 0 {
        return None;
    }
    let w = width as u128;
    let h = height as u128;
    let c = channels as u128;
    assert(w * h <= 0x4000_0000_0000_0000u128) by (nonlinear_arith)
        requires
            w <= 0x8000_0000u128,
            h <= 0x8000_0000u128,
    ;
    let wh = w * h;
    assert(wh * c <= 0x2000_0000_0000_0000_0000_0000u128) by (nonlinear_arith)
        requires
            wh <= 0x4000_0000_0000_0000u128,
            c <= 0x8000_0000u128,
    ;
    let n = wh * c;
    if n > usize::MAX as u128 {
        None
    } else {
        Some(n as usize)
    }
}

} // verus!
