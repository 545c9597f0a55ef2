use vstd::prelude::*;

use crate::bau::token::Token;
use crate::error::AssemblerError;

verus! {

/// Splits assembler source text into tokens.
pub struct Scanner {
    pub source: String,
}

impl Scanner {
    /// Hold the source text to be scanned.
    pub fn new(source: String) -> (r: Scanner)
        ensures
            r.source@ == source@,
    {
        Scanner { source }
    }

    /// Scanning is not implemented yet: every call reports exactly that.
    pub fn scan_tokens(&self) -> (r: Result<Vec<Token>, AssemblerError>)
        ensures
            r == Err::<Vec<Token>, AssemblerError>(AssemblerError::Unimplemented),
    {
        Err(AssemblerError::Unimplemented)
    }
}

} // verus!
