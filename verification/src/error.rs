//! The failures that sharing can end in.

use vstd::prelude::*;

verus! {

/// Why an envelope could not be made.
#[derive(Clone, Copy, Debug, PartialEq, Eq, Structural)]
pub enum WrapError {
    /// The stored entry is not a signed diary event that can be read.
    UnreadableEntry,
    /// The stored event is not the one that was asked for.
    WrongEntry,
    /// Encrypting or signing one of the layers failed.
    Sealing,
    /// What came back is not a signed event that can be read.
    UnreadableEnvelope,
    /// The envelope's identifier or signature does not verify.
    Unverified,
    /// The envelope is not of the private-wrap kind.
    WrongKind,
    /// The envelope does not carry the recipient, and only the recipient, as routing tag.
    WrongRouting,
    /// The envelope is signed by the sender instead of a throwaway key.
    SenderExposed,
    /// The envelope's declared time lies outside the two days before its making.
    TimestampOutOfWindow,
}

/// Why an envelope could not be opened.
#[derive(Clone, Copy, Debug, PartialEq, Eq, Structural)]
pub enum UnwrapError {
    /// The event is not of the private-wrap kind.
    NotAnEnvelope,
    /// A layer does not decrypt under the recipient's keys.
    Undecryptable,
    /// The seal is not a validly signed event, or its payload is not an event at all.
    SealRejected,
    /// The payload is not a well-formed rumor.
    MalformedRumor,
    /// The rumor names an author other than the signer of the seal.
    AuthorMismatch,
}

/// What the sharing operations report when they fail.
#[derive(Debug)]
pub enum ShareError {
    /// The identity could not be written to durable storage.
    IdentityPersist(String),
    /// The recipient is not a public identifier.
    InvalidRecipient,
    /// No envelope was made.
    Wrap(WrapError),
    /// The relay could not be reached, or refused the request.
    Transport(String),
}

/// A `ShareError` with its texts as sequences of characters.
pub enum ShareErrorView {
    IdentityPersist(Seq<char>),
    InvalidRecipient,
    Wrap(WrapError),
    Transport(Seq<char>),
}

impl View for ShareError {
    type V = ShareErrorView;

    open spec fn view(&self) -> ShareErrorView {
        match *self {
            ShareError::IdentityPersist(text) => ShareErrorView::IdentityPersist(text@),
            ShareError::InvalidRecipient => ShareErrorView::InvalidRecipient,
            ShareError::Wrap(fault) => ShareErrorView::Wrap(fault),
            ShareError::Transport(text) => ShareErrorView::Transport(text@),
        }
    }
}

impl WrapError {
    /// The words that describe the fault.
    pub open spec fn spec_describe(self) -> Seq<char> {
        match self {
            WrapError::UnreadableEntry => "Failed to parse Nostr event"@,
            WrapError::WrongEntry => "Stored event is not the entry asked for"@,
            WrapError::Sealing => "Failed to create gift wrapped event"@,
            WrapError::UnreadableEnvelope => "Gift wrap is not a signed event"@,
            WrapError::Unverified => "Gift wrap does not verify"@,
            WrapError::WrongKind => "Gift wrap is not of the private-wrap kind"@,
            WrapError::WrongRouting => "Gift wrap is not addressed to the recipient alone"@,
            WrapError::SenderExposed => "Gift wrap is signed by the sender"@,
            WrapError::TimestampOutOfWindow => "Gift wrap is dated outside the last two days"@,
        }
    }

    /// The words that describe the fault.
    pub fn describe(self) -> (text: &'static str)
        ensures
            text@ == self.spec_describe(),
    {
        match self {
            WrapError::UnreadableEntry => "Failed to parse Nostr event",
            WrapError::WrongEntry => "Stored event is not the entry asked for",
            WrapError::Sealing => "Failed to create gift wrapped event",
            WrapError::UnreadableEnvelope => "Gift wrap is not a signed event",
            WrapError::Unverified => "Gift wrap does not verify",
            WrapError::WrongKind => "Gift wrap is not of the private-wrap kind",
            WrapError::WrongRouting => "Gift wrap is not addressed to the recipient alone",
            WrapError::SenderExposed => "Gift wrap is signed by the sender",
            WrapError::TimestampOutOfWindow => "Gift wrap is dated outside the last two days",
        }
    }
}

impl UnwrapError {
    /// The words that describe the fault.
    pub open spec fn spec_describe(self) -> Seq<char> {
        match self {
            UnwrapError::NotAnEnvelope => "Not a gift wrap"@,
            UnwrapError::Undecryptable => "Gift wrap does not decrypt under the recipient keys"@,
            UnwrapError::SealRejected => "Seal is not a validly signed event"@,
            UnwrapError::MalformedRumor => "Payload is not a well-formed rumor"@,
            UnwrapError::AuthorMismatch => "Rumor author differs from the seal signer"@,
        }
    }

    /// The words that describe the fault.
    pub fn describe(self) -> (text: &'static str)
        ensures
            text@ == self.spec_describe(),
    {
        match self {
            UnwrapError::NotAnEnvelope => "Not a gift wrap",
            UnwrapError::Undecryptable => "Gift wrap does not decrypt under the recipient keys",
            UnwrapError::SealRejected => "Seal is not a validly signed event",
            UnwrapError::MalformedRumor => "Payload is not a well-formed rumor",
            UnwrapError::AuthorMismatch => "Rumor author differs from the seal signer",
        }
    }
}

impl ShareError {
    /// The message of the error: the words of its kind, then those of its cause.
    pub open spec fn spec_message(self) -> Seq<char> {
        match self {
            ShareError::IdentityPersist(text) => "Failed to persist identity: "@ + text@,
            ShareError::InvalidRecipient => "Invalid recipient public key"@,
            ShareError::Wrap(fault) => fault.spec_describe(),
            ShareError::Transport(text) => "Relay transport failed: "@ + text@,
        }
    }

    /// The message of the error: the words of its kind, then those of its cause.
    pub fn message(&self) -> (text: String)
        ensures
            text@ == self.spec_message(),
    {
        match self {
            ShareError::IdentityPersist(cause) => String::from_str(
                "Failed to persist identity: ",
            ).concat(cause.as_str()),
            ShareError::InvalidRecipient => String::from_str("Invalid recipient public key"),
            ShareError::Wrap(fault) => String::from_str(fault.describe()),
            ShareError::Transport(cause) => String::from_str("Relay transport failed: ").concat(
                cause.as_str(),
            ),
        }
    }
}

} // verus!
