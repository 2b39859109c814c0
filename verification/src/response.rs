//! Settings of a reply.

use vstd::prelude::*;

verus! {

/// Options to provide when creating (or deferring the creation of) a message.
#[derive(Debug, Clone, Copy)]
pub struct MessageOpts {
    tts: bool,
    ephemeral: bool,
}

impl Default for MessageOpts {
    fn default() -> (r: Self)
        ensures
            !r.is_tts(),
            !r.is_ephemeral(),
    {
        MessageOpts { tts: false, ephemeral: false }
    }
}

impl MessageOpts {
    /// Whether the message is to be read by screen readers.
    pub closed spec fn spec_is_tts(&self) -> bool {
        self.tts
    }

    /// Whether the message is to be a private temporary response.
    pub closed spec fn spec_is_ephemeral(&self) -> bool {
        self.ephemeral
    }

    /// Whether the message is to be read by screen readers.
    #[verifier::when_used_as_spec(spec_is_tts)]
    pub fn is_tts(&self) -> (r: bool)
        ensures
            r == self.is_tts(),
    {
        self.tts
    }

    /// Whether the message is to be a private temporary response.
    #[verifier::when_used_as_spec(spec_is_ephemeral)]
    pub fn is_ephemeral(&self) -> (r: bool)
        ensures
            r == self.is_ephemeral(),
    {
        self.ephemeral
    }

    /// Set whether this message should be read by screen readers.
    pub fn tts(&mut self, tts: bool)
        ensures
            final(self).is_tts() == tts,
            final(self).is_ephemeral() == old(self).is_ephemeral(),
    {
        self.tts = tts;
    }

    /// Set whether this message should be a private temporary response.
    pub fn ephemeral(&mut self, ephemeral: bool)
        ensures
            final(self).is_ephemeral() == ephemeral,
            final(self).is_tts() == old(self).is_tts(),
    {
        self.ephemeral = ephemeral;
    }
}

} // verus!
