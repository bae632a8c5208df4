//! What a run is asked to do, read from the arguments that follow the
//! program's name.

use vstd::prelude::*;

verus! {

/// What the command line asks for.
#[derive(Debug, Clone, PartialEq, Eq)]
pub enum Invocation {
    /// No argument: print the names of the stored places.
    ListLocations,
    /// One argument: the forecast for the stored place of that name.
    Named { name: String },
    /// Two arguments: the forecast for a latitude and a longitude, here still
    /// as they were typed.
    Coordinates { latitude: String, longitude: String },
    /// Three arguments or more: nothing is looked up or fetched, and
    /// `message` is printed.
    Rejected { message: String },
}

/// The line printed for a command line with three arguments or more.
pub open spec fn too_many_arguments_text() -> Seq<char> {
    "Too many arguments"@
}

impl Invocation {
    /// Reads the arguments that follow the program's name. Their number alone
    /// decides: none lists the places, one names a place, two are a latitude
    /// and a longitude, and more are rejected.
    pub fn from_args(args: &Vec<String>) -> (invocation: Invocation)
        ensures
            args@.len() == 0 ==> invocation is ListLocations,
            args@.len() == 1 ==> (invocation matches Invocation::Named { name } && name@
                == args@[0]@),
            args@.len() == 2 ==> (invocation matches Invocation::Coordinates {
                latitude,
                longitude,
            } && latitude@ == args@[0]@ && longitude@ == args@[1]@),
            args@.len() >= 3 ==> (invocation matches Invocation::Rejected { message } && message@
                == too_many_arguments_text()),
    {
        if args.len() == 0 {
            Invocation::ListLocations
        } else if args.len() == 1 {
            Invocation::Named { name: args[0].clone() }
        } else if args.len() == 2 {
            Invocation::Coordinates { latitude: args[0].clone(), longitude: args[1].clone() }
        } else {
            Invocation::Rejected { message: String::from_str("Too many arguments") }
        }
    }
}

} // verus!
