//! Screening of revocation notices: only a notice whose signature verified
//! under the verifier's key is acted upon.

use vstd::prelude::*;

verus! {

/// What the check of a notice's signature found.
#[derive(Clone, Copy, Debug, PartialEq, Eq, Structural)]
pub enum SignatureCheck {
    /// The signature verifies under the known verifier key.
    Valid,
    /// The notice carries a signature that does not verify.
    Invalid,
    /// The notice carries no signature.
    Missing,
}

/// What the listener does with a notice.
#[derive(Clone, Copy, Debug, PartialEq, Eq, Structural)]
pub enum NoticeAction {
    /// Trigger local remediation, once, for this notice.
    Remediate,
    /// Drop the notice and log it; the listener goes on.
    Drop,
}

/// The action for a notice, by what the check of its signature found.
pub open spec fn action_for(check: SignatureCheck) -> NoticeAction {
    match check {
        SignatureCheck::Valid => NoticeAction::Remediate,
        _ => NoticeAction::Drop,
    }
}

/// How many remediations a run of notices triggers.
pub open spec fn remediations(checks: Seq<SignatureCheck>) -> nat
    decreases checks.len(),
{
    if checks.len() == 0 {
        0
    } else {
        remediations(checks.drop_last()) + if action_for(checks.last()) is Remediate {
            1nat
        } else {
            0nat
        }
    }
}

/// How many notices of a run carry a valid signature.
pub open spec fn valid_notices(checks: Seq<SignatureCheck>) -> nat
    decreases checks.len(),
{
    if checks.len() == 0 {
        0
    } else {
        valid_notices(checks.drop_last()) + if checks.last() is Valid {
            1nat
        } else {
            0nat
        }
    }
}

/// Decides what to do with a notice.
///
/// Remediation is triggered if and only if the signature verified.
pub fn screen_notice(check: SignatureCheck) -> (action: NoticeAction)
    ensures
        action == action_for(check),
        action is Remediate <==> check is Valid,
{
    match check {
        SignatureCheck::Valid => NoticeAction::Remediate,
        SignatureCheck::Invalid => NoticeAction::Drop,
        SignatureCheck::Missing => NoticeAction::Drop,
    }
}

/// Over any run of notices there is one remediation for each validly signed
/// notice, and none for any other.
pub proof fn lemma_one_remediation_per_valid_notice(checks: Seq<SignatureCheck>)
    ensures
        remediations(checks) == valid_notices(checks),
        (forall|i: int| 0 <= i < checks.len() ==> !(#[trigger] checks[i] is Valid))
            ==> remediations(checks) == 0,
    decreases checks.len(),
{
    if checks.len() > 0 {
        lemma_one_remediation_per_valid_notice(checks.drop_last());
        assert forall|i: int| 0 <= i < checks.drop_last().len() implies checks.drop_last()[i]
            == checks[i] by {}
    }
}

} // verus!
