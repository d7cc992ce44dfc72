use vstd::prelude::*;

verus! {

/// Failures of the governance instruction codec.
#[derive(Clone, Copy, Debug, PartialEq, Eq, Structural)]
pub enum GovernanceError {
    /// The first four bytes are not the governance magic.
    MagicMismatch,
    /// The module byte names no known contract class.
    UnknownModule,
    /// The action tag names no known action.
    UnknownActionTag,
    /// Bytes remain after the full payload of the action.
    TrailingBytes,
    /// The input ends before a field that the layout requires.
    Truncated,
    /// An emitter address is not exactly 32 bytes long.
    InvalidEmitterLength,
    /// More data sources than the one-byte count can describe.
    TooManyDataSources,
}

/// Failures of the update and governance pipelines.
#[derive(Clone, Copy, Debug, PartialEq, Eq, Structural)]
pub enum ContractError {
    /// The envelope's emitter is not a trusted source.
    UnauthorizedSource,
    /// The governance sequence number does not exceed the stored one.
    StaleGovernanceMessage,
    /// The governance payload does not decode.
    MalformedInstruction,
    /// The instruction targets another chain.
    WrongChain,
    /// The instruction targets another class of contract.
    WrongModule,
    /// The accumulator update blob does not decode.
    InvalidAccumulatorPayload,
    /// The verified envelope does not carry a Merkle root message.
    InvalidWormholeMessage,
    /// A Merkle proof does not lead to the trusted root.
    InvalidProof,
    /// An accumulator message does not decode.
    InvalidAccumulatorMessage,
    /// An accumulator message is of a type other than a price feed.
    UnsupportedMessageType,
    /// Some requested identifier has no feed within the window.
    IncompleteResult,
    /// The single-feed query found no acceptable first feed.
    PriceNotFound,
}

} // verus!
