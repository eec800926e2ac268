use vstd::prelude::*;

verus! {

/// Why a service could not be assembled. Each of these is a configuration
/// error: it is surfaced at construction and the node does not start.
#[derive(Clone, Copy, Debug, PartialEq, Eq, Structural)]
pub enum ServiceError {
    /// A full import pipeline or an author was asked for without a chain
    /// selector.
    SelectChainRequired,
    /// A light transaction pool was asked for without an active fetcher.
    PoolWithoutFetcher,
    /// A light import queue was asked for without an active fetch checker.
    ImportQueueWithoutFetchChecker,
    /// A light RPC surface was asked for without an active fetcher.
    RpcWithoutFetcher,
    /// A light RPC surface was asked for without an active remote blockchain.
    RpcWithoutRemoteBlockchain,
}

impl ServiceError {
    /// The text of the error.
    pub open spec fn text(self) -> Seq<char> {
        match self {
            ServiceError::SelectChainRequired => {
                "Best chain selection strategy (SelectChain) is not provided."@
            },
            ServiceError::PoolWithoutFetcher => {
                "Trying to start light transaction pool without active fetcher"@
            },
            ServiceError::ImportQueueWithoutFetchChecker => {
                "Trying to start light import queue without active fetch checker"@
            },
            ServiceError::RpcWithoutFetcher => "Trying to start node RPC without active fetcher"@,
            ServiceError::RpcWithoutRemoteBlockchain => {
                "Trying to start node RPC without active remote blockchain"@
            },
        }
    }

    pub fn message(&self) -> (message: String)
        ensures
            message@ == self.text(),
    {
        match self {
            ServiceError::SelectChainRequired => {
                "Best chain selection strategy (SelectChain) is not provided.".to_owned()
            },
            ServiceError::PoolWithoutFetcher => {
                "Trying to start light transaction pool without active fetcher".to_owned()
            },
            ServiceError::ImportQueueWithoutFetchChecker => {
                "Trying to start light import queue without active fetch checker".to_owned()
            },
            ServiceError::RpcWithoutFetcher => {
                "Trying to start node RPC without active fetcher".to_owned()
            },
            ServiceError::RpcWithoutRemoteBlockchain => {
                "Trying to start node RPC without active remote blockchain".to_owned()
            },
        }
    }
}

/// Why a block, a justification or a finality proof was turned away.
#[derive(Clone, Copy, Debug, PartialEq, Eq, Structural)]
pub enum ImportError {
    /// The import queue was built without a chain selector.
    SelectionUnavailable,
    /// The slot proof of the block does not hold.
    ConsensusInvalid,
    /// The justification does not prove finality.
    JustificationInvalid,
    /// The finality proof does not verify.
    FinalityProofInvalid,
    /// The pipeline has no stage that takes what was handed in.
    Unsupported,
    /// The block that evidence was handed in for has not been applied.
    UnknownBlock,
    /// The ledger refused to apply the block.
    LedgerRejected,
}

impl ImportError {
    pub open spec fn text(self) -> Seq<char> {
        match self {
            ImportError::SelectionUnavailable => "no chain selector is configured"@,
            ImportError::ConsensusInvalid => "the slot proof of the block is invalid"@,
            ImportError::JustificationInvalid => "the justification is invalid"@,
            ImportError::FinalityProofInvalid => "the finality proof failed verification"@,
            ImportError::Unsupported => "the pipeline has no stage for this evidence"@,
            ImportError::UnknownBlock => "the block has not been applied"@,
            ImportError::LedgerRejected => "the ledger rejected the block"@,
        }
    }

    pub fn message(&self) -> (message: String)
        ensures
            message@ == self.text(),
    {
        match self {
            ImportError::SelectionUnavailable => "no chain selector is configured".to_owned(),
            ImportError::ConsensusInvalid => "the slot proof of the block is invalid".to_owned(),
            ImportError::JustificationInvalid => "the justification is invalid".to_owned(),
            ImportError::FinalityProofInvalid => {
                "the finality proof failed verification".to_owned()
            },
            ImportError::Unsupported => "the pipeline has no stage for this evidence".to_owned(),
            ImportError::UnknownBlock => "the block has not been applied".to_owned(),
            ImportError::LedgerRejected => "the ledger rejected the block".to_owned(),
        }
    }
}

} // verus!
