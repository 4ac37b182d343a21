//! The unit markers used by the simulation.
//!
//! Each marker is a zero-sized type; tagging a quantity with one rules out,
//! at compile time, ever mixing grams of emissions with counted people or
//! research points. The marker's only runtime contribution is the display
//! suffix.

use vstd::prelude::*;

use super::QuantityType;

verus! {

/// Plain counted things: displayed without any suffix.
pub trait Number: Copy {

}

/// Grams of carbon-dioxide equivalent; displayed with a `g` suffix.
#[derive(Clone, Copy, Debug, PartialEq, Eq, Structural)]
pub struct Emission;

/// Printed flyers.
#[derive(Clone, Copy, Debug, PartialEq, Eq, Structural)]
pub struct Flyer;

/// Counted people.
#[derive(Clone, Copy, Debug, PartialEq, Eq, Structural)]
pub struct Person;

/// Accumulated research progress.
#[derive(Clone, Copy, Debug, PartialEq, Eq, Structural)]
pub struct ResearchPoints;

impl Number for Flyer {

}

impl Number for Person {

}

impl Number for ResearchPoints {

}

impl<N: Number> QuantityType for N {
    open spec fn spec_suffix() -> Seq<char> {
        Seq::empty()
    }

    fn suffix() -> (s: &'static str) {
        proof {
            reveal_strlit("");
            assert(""@ =~= Seq::<char>::empty());
        }
        ""
    }
}

impl QuantityType for Emission {
    open spec fn spec_suffix() -> Seq<char> {
        seq!['g']
    }

    fn suffix() -> (s: &'static str) {
        proof {
            reveal_strlit("g");
            assert("g"@ =~= seq!['g']);
        }
        "g"
    }
}

} // verus!
