//! The last error that happened, as the host can query it.
use vstd::prelude::*;
use crate::jrvalue::JRvalue;
use crate::text::joined;
use vstd::string::*;

verus! {

/// The latest error: `state` is false when no error happened and true when
/// one did, `desc` describes it.
#[derive(Clone, Debug, PartialEq)]
pub struct ErrorState {
    pub desc: String,
    pub state: bool,
}

/// The message recorded by `record_missing_instance` for `origin`.
pub open spec fn spec_missing_instance_msg(origin: Seq<char>, dropped: bool) -> Seq<char> {
    if dropped {
        origin + ":last slint instance dropped, call Slint.CompileFromFile or Slint.CompileFromString again"@
    } else {
        origin + ":no slint instance available, call Slint.CompileFromFile or Slint.CompileFromString"@
    }
}

/// The message recorded by `record_diagnostics` for `origin`.
pub open spec fn spec_diagnostics_msg(origin: Seq<char>, diagnostics: Seq<char>) -> Seq<char> {
    origin + ": diagnostics is not empty: "@ + diagnostics
}

/// The message recorded when `action` on the item `name` failed in
/// `origin` with the error `error`.
pub open spec fn spec_failure_msg(origin: Seq<char>, action: Seq<char>, name: Seq<char>, error: Seq<char>) -> Seq<char> {
    origin + ":"@ + action + " \""@ + name + "\" failed: "@ + error
}

/// The message that `spec_failure_msg` describes.
fn failure_msg(origin: &str, action: &str, name: &str, error: &str) -> (r: String)
    ensures
        r@ == spec_failure_msg(origin@, action@, name@, error@),
{
    let mut d = joined(origin, ":");
    d.append(action);
    d.append(" \"");
    d.append(name);
    d.append("\" failed: ");
    d.append(error);
    d
}

impl ErrorState {
    /// `r` is what `report` gives: a record of kind "ErrorState" whose
    /// integer is 1 for an error and 0 otherwise, and whose string is the
    /// description.
    pub open spec fn reports(self, r: JRvalue) -> bool {
        r.is_plain("ErrorState"@, if self.state { 1 } else { 0 }, 0, self.desc@)
    }

    /// No error.
    pub fn new() -> (r: Self)
        ensures
            !r.state,
            r.desc@ == Seq::<char>::empty(),
    {
        ErrorState { desc: String::new(), state: false }
    }

    /// Records `desc` and `state` as the latest error state.
    pub fn set(&mut self, desc: String, state: bool)
        ensures
            final(self).desc@ == desc@,
            final(self).state == state,
    {
        self.desc = desc;
        self.state = state;
    }

    /// Forgets the latest error.
    pub fn clear(&mut self)
        ensures
            !final(self).state,
            final(self).desc@ == Seq::<char>::empty(),
    {
        self.set(String::new(), false);
    }

    /// The latest error as a record of kind "ErrorState": `int_value` is 1
    /// when an error happened and 0 otherwise, `string_value` describes it.
    pub fn report(&self) -> (r: JRvalue)
        ensures
            self.reports(r),
    {
        let i: i32 = if self.state { 1 } else { 0 };
        JRvalue::plain("ErrorState", i, 0, self.desc.clone())
    }

    /// Records that compiling Slint code in `origin` produced `diagnostics`.
    pub fn record_diagnostics(&mut self, origin: &str, diagnostics: &str)
        ensures
            final(self).state,
            final(self).desc@ == spec_diagnostics_msg(origin@, diagnostics@),
    {
        let mut d = joined(origin, ": diagnostics is not empty: ");
        d.append(diagnostics);
        self.set(d, true);
    }

    /// Records that `origin` found no Slint instance to work on: none was
    /// ever created, or the last one was `dropped`.
    pub fn record_missing_instance(&mut self, origin: &str, dropped: bool)
        ensures
            final(self).state,
            final(self).desc@ == spec_missing_instance_msg(origin@, dropped),
    {
        let d = if dropped {
            joined(
                origin,
                ":last slint instance dropped, call Slint.CompileFromFile or Slint.CompileFromString again",
            )
        } else {
            joined(
                origin,
                ":no slint instance available, call Slint.CompileFromFile or Slint.CompileFromString",
            )
        };
        self.set(d, true);
    }

    /// Records that registering the callback `name` failed with `error`.
    pub fn record_callback_failure(&mut self, name: &str, error: &str)
        ensures
            final(self).state,
            final(self).desc@ == spec_failure_msg("r_set_callback"@, "setting callback"@, name@, error@),
    {
        self.set(failure_msg("r_set_callback", "setting callback", name, error), true);
    }

    /// Records that writing the property `property` failed with `error`.
    pub fn record_write_failure(&mut self, property: &str, error: &str)
        ensures
            final(self).state,
            final(self).desc@ == spec_failure_msg("r_set_value"@, "setting property"@, property@, error@),
    {
        self.set(failure_msg("r_set_value", "setting property", property, error), true);
    }

    /// Records that reading the property `property` failed with `error`.
    pub fn record_read_failure(&mut self, property: &str, error: &str)
        ensures
            final(self).state,
            final(self).desc@ == spec_failure_msg("r_get_value"@, "getting property"@, property@, error@),
    {
        self.set(failure_msg("r_get_value", "getting property", property, error), true);
    }
}

} // verus!
