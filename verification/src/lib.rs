//! Small helpers around value ownership: creating an owned value and moving
//! it out, taking a value and handing the same value back, and updating an
//! owned boxed integer in place. Each contract pins down exactly which value
//! the caller receives.
use vstd::prelude::*;

verus! {

/// Creates a fresh owned string and moves it out to the caller.
pub fn gives_ownership() -> (s: String)
    ensures
        s@ == "yours"@,
{
    let some_string: String = "yours".to_owned();
    some_string
}

/// Takes ownership of a string and moves the very same value back out.
pub fn takes_and_gives_back(a_string: String) -> (r: String)
    ensures
        r == a_string,
{
    a_string
}

/// Takes ownership of a boxed integer and stores a new value in it; the
/// caller gets the same box back holding the new value.
pub fn store_in_box(x: Box<i32>, v: i32) -> (r: Box<i32>)
    ensures
        *r == v,
{
    let mut b = x;
    *b = v;
    b
}

} // verus!
