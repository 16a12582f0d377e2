//! What the library asks of the machine it runs on.

use vstd::prelude::*;

verus! {

/// The number of logical processors, as `num_cpus::get` reports it. That
/// function documents that it returns at least 1; nothing else is known of
/// the number, which differs from machine to machine.
#[verifier::external_body]
pub(crate) fn available_processors() -> (n: usize)
    ensures
        n >= 1,
{
    num_cpus::get()
}

/// The platform's primary path separator, std's `path::MAIN_SEPARATOR`.
/// Nothing is claimed of the character: it depends on the platform.
#[verifier::external_body]
pub(crate) fn main_separator() -> (c: char) {
    std::path::MAIN_SEPARATOR
}

} // verus!
