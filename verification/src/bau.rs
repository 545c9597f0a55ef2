use vstd::prelude::*;

pub mod scanner;
pub mod token;

verus! {

/// The assembler front end: turns source text into a validated stream of
/// instruction words.  The core only consumes its output, a byte buffer
/// loaded verbatim into the read-only device; reading source files happens
/// outside this crate.
pub struct BAU {

}

impl BAU {
    pub fn new() -> (r: BAU) {
        BAU {  }
    }
}

} // verus!
