//! The restaurant's two houses: the front takes guests, the back cooks.

use vstd::prelude::*;

verus! {

/// Puts a party on the waitlist at the host's stand.
pub fn add_to_waitlist() {
}

/// Runs a finished order out to its table.
pub fn deliver_order() {
}

/// Cooks one order.
pub fn cook_order() {
}

/// Re-fires a botched order and sends it out again.
pub fn fix_incorrect_order() {
    cook_order();
    deliver_order();
}

/// The breakfast plate: the guest picks the toast, the kitchen picks the
/// fruit of the season.
pub struct Breakfast {
    pub toast: String,
    seasonal_fruit: String,
}

impl Breakfast {
    /// What toast the guest asked for.
    pub closed spec fn spec_toast(self) -> Seq<char> {
        self.toast@
    }

    /// What fruit came with the plate.
    pub closed spec fn spec_seasonal_fruit(self) -> Seq<char> {
        self.seasonal_fruit@
    }

    /// The summer plate: the guest's toast, with peaches on the side.
    pub fn summer(toast: &str) -> (b: Breakfast)
        ensures
            b.spec_toast() == toast@,
            b.spec_seasonal_fruit() == "peaches"@,
    {
        Breakfast { toast: toast.to_owned(), seasonal_fruit: "peaches".to_owned() }
    }
}

/// The starter course on offer.
pub enum Appetizer {
    Soup,
    Salad,
}

} // verus!
