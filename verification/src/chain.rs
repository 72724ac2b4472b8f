//! Construction of the next operation of a DID's chain: the operation at
//! the chain's tip, changed as asked, linked to the tip, and signed.

use vstd::prelude::*;
use crate::crypto::{sign_operation, signed_operation, CryptoError};
use crate::patch::{
    apply, directives_view, first_failure, lemma_failure_is_final, patched_by, Directive,
    PatchApplicationError, PatchDirective,
};
use crate::plc::{before, did_plc_last_operation, is_tip, tip_index, AuditEntry};

verus! {

/// The ways in which building the next operation fails.
#[derive(Debug, Clone, Copy, PartialEq, Eq, Structural)]
pub enum ChainError {
    /// The DID's audit log is empty.
    NoOperationsFound,
    /// The tip of the chain does not take the patch.
    Patch(PatchApplicationError),
    /// The key cannot sign the operation.
    Key(CryptoError),
}

/// The operation that follows the tip of a chain, before and after signing.
#[derive(Debug, PartialEq, Eq)]
pub struct NextOperation {
    /// The content identifier of the tip, which the new operation names as
    /// its `prev`.
    pub last_commit: String,
    /// The operation at the tip.
    pub last_operation: String,
    /// The new operation, not yet signed.
    pub operation: String,
    /// The new operation with its signature.
    pub signed_operation: String,
}

/// The patch that turns the tip's operation into its successor: the
/// changes asked for, then the old signature leaves, then `prev` names the
/// tip's content identifier `last_commit`.
pub open spec fn linked(changes: Seq<Directive>, last_commit: Seq<char>) -> Seq<Directive> {
    changes + seq![
        Directive::Remove { path: "/sig"@ },
        Directive::Replace { path: "/prev"@, value: last_commit },
    ]
}

/// What building the next operation on `log` comes to.
pub open spec fn next_operation_outcome(
    jwk: Seq<char>,
    log: Seq<AuditEntry>,
    changes: Seq<Directive>,
    out: Result<NextOperation, ChainError>,
) -> bool {
    let tip = log[tip_index(log)];
    let patch = linked(changes, tip.cid@);
    match out {
        Err(ChainError::NoOperationsFound) => log.len() == 0,
        Err(ChainError::Patch(e)) => log.len() > 0 && first_failure(
            tip.operation@,
            patch,
            e.directive as int,
        ),
        Err(ChainError::Key(e)) => {
            &&& log.len() > 0
            &&& patched_by(tip.operation@, patch) matches Some(unsigned)
            &&& signed_operation(jwk, unsigned) == Err::<Seq<char>, CryptoError>(e)
        },
        Ok(next) => {
            &&& log.len() > 0
            &&& is_tip(log, tip_index(log))
            &&& next.last_commit@ == tip.cid@
            &&& next.last_operation@ == tip.operation@
            &&& patched_by(tip.operation@, patch) == Some(next.operation@)
            &&& signed_operation(jwk, next.operation@) == Ok::<Seq<char>, CryptoError>(
                next.signed_operation@,
            )
        },
    }
}

/// Whatever the changes, the last directive of the patch sets `prev` to
/// the content identifier of the log's tip, and no entry of the log was
/// created after the tip.
pub proof fn lemma_chain_linkage(changes: Seq<Directive>, log: Seq<AuditEntry>, j: int)
    requires
        0 <= j < log.len(),
        is_tip(log, tip_index(log)),
    ensures
        linked(changes, log[tip_index(log)].cid@).last() == (Directive::Replace {
            path: "/prev"@,
            value: log[tip_index(log)].cid@,
        }),
        !before(log[tip_index(log)].created_at, log[j].created_at),
{
}

/// The same key, log and changes give the same operation: two outcomes of
/// building agree on whether there is an operation, on its text before
/// signing, and on its text after.
pub proof fn lemma_same_contents_same_operation(
    jwk: Seq<char>,
    log: Seq<AuditEntry>,
    changes: Seq<Directive>,
    first: Result<NextOperation, ChainError>,
    second: Result<NextOperation, ChainError>,
)
    requires
        next_operation_outcome(jwk, log, changes, first),
        next_operation_outcome(jwk, log, changes, second),
    ensures
        first is Ok <==> second is Ok,
        first is Ok ==> first->Ok_0.operation@ == second->Ok_0.operation@,
        first is Ok ==> first->Ok_0.signed_operation@ == second->Ok_0.signed_operation@,
        first is Ok ==> first->Ok_0.last_commit@ == second->Ok_0.last_commit@,
{
    let tip = log[tip_index(log)];
    let patch = linked(changes, tip.cid@);
    match first {
        Err(ChainError::Patch(e)) => {
            lemma_failure_is_final(tip.operation@, patch, e.directive as int);
        },
        _ => {},
    }
    match second {
        Err(ChainError::Patch(e)) => {
            lemma_failure_is_final(tip.operation@, patch, e.directive as int);
        },
        _ => {},
    }
}

/// Builds and signs the operation that follows the tip of `log`: the tip's
/// operation with `changes` applied, its old signature removed and `prev`
/// set to the tip's content identifier, signed with the secret key written
/// in `jwk`.
pub fn next_operation(jwk: &str, log: &Vec<AuditEntry>, changes: Vec<PatchDirective>) -> (out:
    Result<NextOperation, ChainError>)
    ensures
        next_operation_outcome(jwk@, log@, directives_view(changes@), out),
{
    let (last_commit, last_operation) = match did_plc_last_operation(log) {
        Err(_) => {
            return Err(ChainError::NoOperationsFound);
        },
        Ok(pair) => pair,
    };
    let mut directives = changes;
    directives.push(PatchDirective::Remove { path: "/sig".to_owned() });
    directives.push(
        PatchDirective::Replace { path: "/prev".to_owned(), value: last_commit.clone() },
    );
    assert(directives_view(directives@) =~= linked(directives_view(changes@), last_commit@));
    let operation = match apply(last_operation.as_str(), &directives) {
        Err(e) => {
            return Err(ChainError::Patch(e));
        },
        Ok(operation) => operation,
    };
    match sign_operation(jwk, operation.as_str()) {
        Err(e) => Err(ChainError::Key(e)),
        Ok(signed_operation) => Ok(
            NextOperation { last_commit, last_operation, operation, signed_operation },
        ),
    }
}

} // verus!
