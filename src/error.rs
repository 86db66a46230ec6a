use vstd::prelude::*;
use crate::ids::ObjectId;
use crate::net::SuiNet;

verus! {

/// The result that a resolution looked for in a transaction response.
#[derive(Clone, Copy, Debug, PartialEq, Eq, Structural)]
pub enum Artifact {
    NetworkId,
    OwnerCapOverTool,
    OwnerCapOverGas,
}

/// Why a command failed. Every failure ends the command.
#[derive(Clone, Copy, Debug, PartialEq, Eq, Structural)]
pub enum CliError {
    /// The wallet holds fewer coins than the command needs.
    InsufficientFunds { net: SuiNet, available: usize },
    /// A coin that was asked for by identifier is not in the wallet.
    ObjectNotFound { object_id: ObjectId },
    /// Two funding roles resolved to the same coin.
    DuplicateFundingObject { object_id: ObjectId },
    /// The transaction could not be assembled.
    TransactionBuildFailed,
    /// Signing or submitting the transaction failed.
    SubmissionFailed,
    /// The response holds no record of the expected result.
    ArtifactNotFound { artifact: Artifact },
    /// The configuration lacks the Nexus objects.
    ConfigurationMissing,
}

} // verus!
