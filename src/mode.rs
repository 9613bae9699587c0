//! The encoding rules a byte run was produced under.

use vstd::prelude::*;

verus! {

/// The ASN.1 encoding rules.
///
/// `Ber` is the permissive set; `Cer` and `Der` are canonical: each abstract
/// value has exactly one encoding under them.
#[derive(Clone, Copy, Debug, PartialEq, Eq, Structural)]
pub enum Mode {
    Ber,
    Cer,
    Der,
}

impl Mode {
    /// Whether bytes produced under `self` may be emitted inside an encoding
    /// made under `target`: always into `Ber`, otherwise only into the very
    /// same rules.
    pub open spec fn embeds_into(self, target: Mode) -> bool {
        target == Mode::Ber || target == self
    }

    /// Executable form of [`Mode::embeds_into`], for callers that must
    /// establish it before re-emitting a capture.
    pub fn is_embeddable_into(self, target: Mode) -> (r: bool)
        ensures
            r == self.embeds_into(target),
    {
        target == Mode::Ber || target == self
    }
}

} // verus!
