//! Default values of the stored configuration.
use vstd::prelude::*;

use crate::text::owned;

verus! {

/// The e-mail address before one is set: empty.
pub fn default_mail() -> (r: String)
    ensures
        r@ == Seq::<char>::empty(),
{
    String::new()
}

/// The place of work before one is chosen: the office.
pub fn default_location() -> (r: String)
    ensures
        r@ == "office"@,
{
    owned("office")
}

/// The user id before it is looked up: empty.
pub fn default_user_id() -> (r: String)
    ensures
        r@ == Seq::<char>::empty(),
{
    String::new()
}

/// The working days before the contract is read: none.
pub fn default_working_days() -> (r: Vec<String>)
    ensures
        r@.len() == 0,
{
    Vec::new()
}

/// The largest random shift of times, in minutes, before one is chosen.
pub fn default_rand_range() -> (r: u16)
    ensures
        r == 30,
{
    30
}

} // verus!
