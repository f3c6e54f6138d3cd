//! Classification of received messages for the input-handling path.

use vstd::prelude::*;

verus! {

/// Whether a received message carries per-tick user input and must go
/// through the input-recovery path, or is an ordinary message.
pub enum InputMessageKind {
    /// A message carrying per-tick user actions.
    Native,
    /// Not an input message, but a regular message.
    Regular,
}

} // verus!
