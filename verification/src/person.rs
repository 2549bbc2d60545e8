//! A small record of a person and its display helper.

use vstd::prelude::*;

verus! {

/// Contact details for one person.
#[derive(Debug)]
pub struct Person {
    pub first_name: String,
    pub last_name: String,
    pub age: u8,
    pub email: String,
    pub phone_number: u32,
}

impl Person {
    /// The first and last names joined by a single space.
    pub fn full_name(&self) -> (r: String)
        ensures
            r@ == self.first_name@ + seq![' '] + self.last_name@,
    {
        proof {
            reveal_strlit(" ");
        }
        let mut r = self.first_name.clone();
        r.append(" ");
        r.append(self.last_name.as_str());
        proof {
            assert(r@ =~= self.first_name@ + seq![' '] + self.last_name@);
        }
        r
    }
}

} // verus!
