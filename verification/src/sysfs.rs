//! Attribute writes and attribute names of the sysfs interfaces the
//! platforms use. The daemon joins an attribute name to the device's
//! directory and performs the write.
use crate::text::{decimal, decimal_string, push_decimal};
use vstd::prelude::*;

verus! {

/// A write of `value` to attribute `attr` of a sysfs device directory.
#[derive(Debug)]
pub struct AttrWrite {
    pub attr: String,
    pub value: String,
}

impl AttrWrite {
    /// (attribute, value) as text, for contracts.
    pub open spec fn view_pair(self) -> (Seq<char>, Seq<char>) {
        (self.attr@, self.value@)
    }
}

/// The attribute writes of `ws` as (attribute, value) pairs.
pub open spec fn writes_view(ws: Seq<AttrWrite>) -> Seq<(Seq<char>, Seq<char>)> {
    ws.map_values(|w: AttrWrite| w.view_pair())
}

/// The name `prefix`, the decimal `index`, `suffix`: `fan1_input`, `pwm2_enable`.
pub fn indexed_attr(prefix: &str, index: u64, suffix: &str) -> (s: String)
    ensures
        s@ == prefix@ + decimal(index as nat) + suffix@,
{
    let mut s = String::from_str(prefix);
    push_decimal(&mut s, index);
    s.append(suffix);
    s
}

/// The write of the decimal text of `value` to `attr`.
pub fn write_number(attr: String, value: u64) -> (w: AttrWrite)
    ensures
        w.attr == attr,
        w.value@ == decimal(value as nat),
{
    AttrWrite { attr, value: decimal_string(value) }
}

/// The write of a fixed text to `attr`.
pub fn write_text(attr: &str, value: &str) -> (w: AttrWrite)
    ensures
        w.attr@ == attr@,
        w.value@ == value@,
{
    AttrWrite { attr: String::from_str(attr), value: String::from_str(value) }
}

/// The message of the error that a missing kernel shim gives:
/// `<what> not found at <path>`.
pub fn not_found_message(what: &str, path: &str) -> (m: String)
    ensures
        m@ == what@ + " not found at "@ + path@,
{
    let mut m = String::from_str(what);
    m.append(" not found at ");
    m.append(path);
    m
}

/// A one-element sequence of writes.
pub fn one_write(w: AttrWrite) -> (v: Vec<AttrWrite>)
    ensures
        writes_view(v@) == seq![w.view_pair()],
{
    let mut v: Vec<AttrWrite> = Vec::new();
    v.push(w);
    assert(writes_view(v@) =~= seq![w.view_pair()]);
    v
}

/// A two-element sequence of writes, in order.
pub fn two_writes(a: AttrWrite, b: AttrWrite) -> (v: Vec<AttrWrite>)
    ensures
        writes_view(v@) == seq![a.view_pair(), b.view_pair()],
{
    let mut v: Vec<AttrWrite> = Vec::new();
    v.push(a);
    v.push(b);
    assert(writes_view(v@) =~= seq![a.view_pair(), b.view_pair()]);
    v
}

} // verus!
