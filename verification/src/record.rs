//! The record: one signed 32-bit integer, given at construction, replaced by
//! the setter, read by the getter.
//!
//! A record is modelled by the integer it holds (`record@`). The constructor
//! and the setter each have a spec function that names the record they
//! produce, so that what holds of several calls in a row can be stated and
//! proved once, in the proof functions at the end of this file.

use vstd::prelude::*;

verus! {

/// A record that holds one integer.
pub struct Foo {
    val: i32,
}

impl View for Foo {
    type V = i32;

    /// The integer that the record holds.
    closed spec fn view(&self) -> i32 {
        self.val
    }
}

impl Foo {
    /// The record that `new` builds from `val`.
    pub closed spec fn spec_new(val: i32) -> Foo {
        Foo { val }
    }

    /// The record that `set_field` leaves where `self` was.
    pub closed spec fn spec_set_field(self, new_val: i32) -> Foo {
        Foo { val: new_val }
    }

    /// The record after the setter was called with each integer of `vals`,
    /// first to last.
    pub open spec fn spec_set_each(self, vals: Seq<i32>) -> Foo
        decreases vals.len(),
    {
        if vals.len() == 0 {
            self
        } else {
            self.spec_set_each(vals.drop_last()).spec_set_field(vals.last())
        }
    }

    /// Builds a record that holds `val`.
    pub fn new(val: i32) -> (record: Self)
        ensures
            record == Foo::spec_new(val),
            record@ == val,
    {
        Self { val }
    }

    /// Replaces the held integer by `new_val`.
    pub fn set_field(&mut self, new_val: i32)
        ensures
            *final(self) == old(self).spec_set_field(new_val),
            final(self)@ == new_val,
    {
        self.val = new_val;
    }

    /// Reads the held integer. The record is left as it is.
    pub fn val(&self) -> (held: i32)
        ensures
            held == self@,
    {
        self.val
    }
}

/// A record is no more than the integer it holds: two records that hold the
/// same integer are the same record.
pub proof fn lemma_record_is_its_value(a: Foo, b: Foo)
    ensures
        a@ == b@ <==> a == b,
{
}

/// A new record holds the integer it was built with.
pub proof fn lemma_new_holds_its_argument(val: i32)
    ensures
        Foo::spec_new(val)@ == val,
{
}

/// After the setter, a record holds the integer that was set, whatever it
/// held before.
pub proof fn lemma_set_field_holds_its_argument(record: Foo, new_val: i32)
    ensures
        record.spec_set_field(new_val)@ == new_val,
{
}

/// A record built with `first` and then set to `second` holds `second`.
pub proof fn lemma_new_then_set_field(first: i32, second: i32)
    ensures
        Foo::spec_new(first).spec_set_field(second)@ == second,
{
}

/// The setter is idempotent: setting the same integer twice leaves the record
/// that setting it once leaves.
pub proof fn lemma_set_field_idempotent(record: Foo, new_val: i32)
    ensures
        record.spec_set_field(new_val).spec_set_field(new_val) == record.spec_set_field(new_val),
{
}

/// A record always holds the integer that was set last, or the integer it was
/// built with if none was set.
pub proof fn lemma_holds_last_set(first: i32, vals: Seq<i32>)
    ensures
        Foo::spec_new(first).spec_set_each(vals)@ == if vals.len() == 0 {
            first
        } else {
            vals.last()
        },
{
}

} // verus!
