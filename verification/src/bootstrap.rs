//! The agent's start-up as a sequence of steps: create the endorsement
//! identity, create the attestation identity bound to it, register,
//! recover the shared secret from the registrar's challenge, activate, and
//! only then launch the services.
//!
//! The caller performs each step and reports its outcome; [`Bootstrap::advance`]
//! answers with the next step. Any failure ends the start-up for good: no
//! step is retried, and the services are never launched by a start-up that
//! failed.

use vstd::prelude::*;
use crate::auth_tag::{auth_tag, compute_auth_tag, secret_fits, secret_is_usable};
use crate::error::AgentError;
use crate::identifier::{get_uuid, resolved_identifier};
use crate::uuid_text::is_version4;

verus! {

/// How far the start-up has come: the step whose outcome is awaited, or how
/// the start-up ended.
#[derive(Clone, Copy, Debug, PartialEq, Eq, Structural)]
pub enum BootPhase {
    /// Nothing has been asked for yet.
    Idle,
    /// The endorsement identity is being created.
    CreatingEndorsement,
    /// The attestation identity is being created.
    CreatingAttestation,
    /// The registration is with the registrar.
    Registering,
    /// The hardware is recovering the shared secret from the challenge.
    RecoveringSecret,
    /// The activation is with the registrar.
    Activating,
    /// The handshake is complete and the services are launched.
    Serving,
    /// The start-up failed.
    Failed,
}

impl BootPhase {
    /// Whether the start-up has ended, one way or the other.
    pub open spec fn is_terminal(self) -> bool {
        self is Serving || self is Failed
    }

    /// How many steps have been completed when this phase is reached on the
    /// way to serving.
    pub open spec fn rank(self) -> nat {
        match self {
            BootPhase::Idle => 0,
            BootPhase::CreatingEndorsement => 1,
            BootPhase::CreatingAttestation => 2,
            BootPhase::Registering => 3,
            BootPhase::RecoveringSecret => 4,
            BootPhase::Activating => 5,
            BootPhase::Serving => 6,
            BootPhase::Failed => 0,
        }
    }
}

/// The asymmetric scheme of the endorsement identity.
#[derive(Clone, Copy, Debug, PartialEq, Eq, Structural)]
pub enum AsymmetricScheme {
    Rsa,
    Ecc,
}

/// The outcome of the step in progress, as the caller reports it.
#[derive(Debug, PartialEq, Eq)]
pub enum BootEvent {
    /// The process has started.
    Started,
    /// The hardware created the endorsement identity.
    EndorsementCreated,
    /// The hardware created the attestation identity.
    AttestationCreated,
    /// The registrar accepted the registration and issued its challenge.
    ChallengeReceived,
    /// The hardware recovered the shared secret from the challenge.
    SecretRecovered(Vec<u8>),
    /// The registrar acknowledged the activation.
    ActivationAcknowledged,
    /// The step failed.
    Failure(AgentError),
}

/// The next thing for the caller to do.
#[derive(Debug, PartialEq, Eq)]
pub enum BootAction {
    /// Create the endorsement identity with the given scheme.
    CreateEndorsementIdentity(AsymmetricScheme),
    /// Create the attestation identity under the endorsement identity.
    CreateAttestationIdentity,
    /// Send the identifier and the public material to the registrar.
    Register,
    /// Hand the challenge to the hardware.
    ActivateCredential,
    /// Send the identifier and this tag to the registrar.
    Activate { auth_tag: String },
    /// Launch the evidence service and the revocation listener together.
    LaunchServices,
    /// Give up: report the error and exit with a failure status.
    Abort(AgentError),
}

/// The phase that follows `phase` when `event` is the outcome that the phase
/// waits for; `None` for any other event.
pub open spec fn expected_next(phase: BootPhase, event: BootEvent) -> Option<BootPhase> {
    match (phase, event) {
        (BootPhase::Idle, BootEvent::Started) => Some(BootPhase::CreatingEndorsement),
        (BootPhase::CreatingEndorsement, BootEvent::EndorsementCreated) => Some(
            BootPhase::CreatingAttestation,
        ),
        (BootPhase::CreatingAttestation, BootEvent::AttestationCreated) => Some(
            BootPhase::Registering,
        ),
        (BootPhase::Registering, BootEvent::ChallengeReceived) => Some(BootPhase::RecoveringSecret),
        (BootPhase::RecoveringSecret, BootEvent::SecretRecovered(_)) => Some(BootPhase::Activating),
        (BootPhase::Activating, BootEvent::ActivationAcknowledged) => Some(BootPhase::Serving),
        _ => None,
    }
}

/// The step that is asked for on entering a phase, where the phase does not
/// need a computed value.
pub open spec fn action_on_entering(phase: BootPhase) -> BootAction {
    match phase {
        BootPhase::CreatingEndorsement => BootAction::CreateEndorsementIdentity(
            AsymmetricScheme::Rsa,
        ),
        BootPhase::CreatingAttestation => BootAction::CreateAttestationIdentity,
        BootPhase::Registering => BootAction::Register,
        BootPhase::RecoveringSecret => BootAction::ActivateCredential,
        _ => BootAction::LaunchServices,
    }
}

/// Whether `next` and `action` are a correct answer to `event` in `phase`,
/// for the agent named `agent_id`.
///
/// Once the start-up has ended, nothing changes and nothing is asked for. A
/// reported failure, and an outcome that the phase does not wait for, end
/// the start-up with an abort. The awaited outcome leads to the next phase
/// and its step. The recovered secret leads to the activation with the tag
/// over the identifier, or, where the tag cannot be computed, to an abort.
pub open spec fn step_allowed(
    phase: BootPhase,
    event: BootEvent,
    agent_id: Seq<char>,
    next: BootPhase,
    action: Option<BootAction>,
) -> bool {
    if phase.is_terminal() {
        next == phase && action is None
    } else if event is Failure {
        next is Failed && action == Some(BootAction::Abort(event->Failure_0))
    } else {
        match expected_next(phase, event) {
            None => next is Failed && action == Some(BootAction::Abort(AgentError::OutOfOrder)),
            Some(target) => match event {
                BootEvent::SecretRecovered(secret) => {
                    ||| {
                        &&& secret_fits(secret@.len())
                        &&& next == target
                        &&& action matches Some(BootAction::Activate { auth_tag: tag })
                        &&& tag@ == auth_tag(agent_id, secret@)
                    }
                    ||| next is Failed && action == Some(
                        BootAction::Abort(AgentError::CryptoFailure),
                    )
                },
                _ => next == target && action == Some(action_on_entering(target)),
            },
        }
    }
}

/// Whether some outcome can lead from `phase` to `next`.
pub open spec fn can_follow(phase: BootPhase, next: BootPhase) -> bool {
    exists|event: BootEvent, agent_id: Seq<char>, action: Option<BootAction>| #[trigger]
        step_allowed(phase, event, agent_id, next, action)
}

/// Whether `phases` is the course of a start-up: it begins idle, and each
/// phase follows from the one before by some outcome.
pub open spec fn is_course(phases: Seq<BootPhase>) -> bool {
    &&& phases.len() > 0
    &&& phases[0] is Idle
    &&& forall|i: int| 0 <= i < phases.len() - 1 ==> can_follow(#[trigger] phases[i], phases[i + 1])
}

/// The start-up of one agent.
pub struct Bootstrap {
    phase: BootPhase,
    agent_id: String,
}

impl Bootstrap {
    /// The phase that the start-up is in.
    pub closed spec fn spec_phase(&self) -> BootPhase {
        self.phase
    }

    /// The agent's identifier.
    pub closed spec fn spec_agent_id(&self) -> Seq<char> {
        self.agent_id@
    }

    /// A start-up, not yet begun, of the agent with the given identifier.
    pub fn new(agent_id: String) -> (boot: Bootstrap)
        ensures
            boot.spec_phase() is Idle,
            boot.spec_agent_id() == agent_id@,
    {
        Bootstrap { phase: BootPhase::Idle, agent_id }
    }

    /// A start-up, not yet begun, of the agent whose identifier is resolved
    /// from its configured value.
    pub fn from_config(agent_uuid_config: &str) -> (boot: Bootstrap)
        ensures
            boot.spec_phase() is Idle,
            exists|fresh: Seq<u8>| #[trigger]
                is_version4(fresh) && boot.spec_agent_id() == resolved_identifier(
                    agent_uuid_config@,
                    fresh,
                ),
    {
        Bootstrap { phase: BootPhase::Idle, agent_id: get_uuid(agent_uuid_config) }
    }

    /// The phase that the start-up is in.
    pub fn phase(&self) -> (phase: BootPhase)
        ensures
            phase == self.spec_phase(),
    {
        self.phase
    }

    /// The agent's identifier.
    pub fn agent_id(&self) -> (id: &str)
        ensures
            id@ == self.spec_agent_id(),
    {
        self.agent_id.as_str()
    }

    /// Whether the services may run: the handshake is complete.
    pub fn is_serving(&self) -> (serving: bool)
        ensures
            serving == (self.spec_phase() is Serving),
    {
        match self.phase {
            BootPhase::Serving => true,
            _ => false,
        }
    }

    /// Takes the outcome of the step in progress and answers with the next
    /// step, or with `None` once the start-up has ended.
    pub fn advance(&mut self, event: BootEvent) -> (action: Option<BootAction>)
        ensures
            final(self).spec_agent_id() == old(self).spec_agent_id(),
            step_allowed(
                old(self).spec_phase(),
                event,
                old(self).spec_agent_id(),
                final(self).spec_phase(),
                action,
            ),
            action == Some(BootAction::LaunchServices) <==> (old(self).spec_phase() is Activating
                && event is ActivationAcknowledged),
            final(self).spec_phase() is Serving ==> old(self).spec_phase() is Serving
                || action == Some(BootAction::LaunchServices),
            old(self).spec_phase() is Failed ==> final(self).spec_phase() is Failed,
    {
        let phase = self.phase;
        match phase {
            BootPhase::Serving => {
                return None;
            },
            BootPhase::Failed => {
                return None;
            },
            _ => {},
        }
        let (next, action) = match (phase, event) {
            (_, BootEvent::Failure(e)) => (BootPhase::Failed, BootAction::Abort(e)),
            (BootPhase::Idle, BootEvent::Started) => (
                BootPhase::CreatingEndorsement,
                BootAction::CreateEndorsementIdentity(AsymmetricScheme::Rsa),
            ),
            (BootPhase::CreatingEndorsement, BootEvent::EndorsementCreated) => (
                BootPhase::CreatingAttestation,
                BootAction::CreateAttestationIdentity,
            ),
            (BootPhase::CreatingAttestation, BootEvent::AttestationCreated) => (
                BootPhase::Registering,
                BootAction::Register,
            ),
            (BootPhase::Registering, BootEvent::ChallengeReceived) => (
                BootPhase::RecoveringSecret,
                BootAction::ActivateCredential,
            ),
            (BootPhase::RecoveringSecret, BootEvent::SecretRecovered(secret)) => {
                if secret_is_usable(secret.len()) {
                    activation_step(compute_auth_tag(self.agent_id.as_str(), secret.as_slice()))
                } else {
                    (BootPhase::Failed, BootAction::Abort(AgentError::CryptoFailure))
                }
            },
            (BootPhase::Activating, BootEvent::ActivationAcknowledged) => (
                BootPhase::Serving,
                BootAction::LaunchServices,
            ),
            _ => (BootPhase::Failed, BootAction::Abort(AgentError::OutOfOrder)),
        };
        self.phase = next;
        Some(action)
    }
}

/// The step after the tag computation: the activation with the tag, or an
/// abort with the error of the computation.
pub fn activation_step(tag: Result<String, AgentError>) -> (step: (BootPhase, BootAction))
    ensures
        match tag {
            Ok(text) => {
                &&& step.0 is Activating
                &&& step.1 matches BootAction::Activate { auth_tag }
                &&& auth_tag@ == text@
            },
            Err(e) => step.0 is Failed && step.1 == BootAction::Abort(e),
        },
{
    match tag {
        Ok(text) => (BootPhase::Activating, BootAction::Activate { auth_tag: text }),
        Err(e) => (BootPhase::Failed, BootAction::Abort(e)),
    }
}

/// Whether the vendor string of the root of trust names a software emulator:
/// it holds the letters `SW` side by side.
pub open spec fn names_software_root(vendor: Seq<char>) -> bool {
    exists|i: int| 0 <= i && i + 1 < vendor.len() && #[trigger] vendor[i] == 'S' && vendor[i + 1]
        == 'W'
}

/// Whether the root of trust is a software emulator, going by its vendor
/// string. Evidence from such a root is not backed by hardware, and the
/// operator is to be warned once at start-up.
pub fn is_software_root(vendor: &str) -> (software: bool)
    ensures
        software == names_software_root(vendor@),
{
    let n: usize = vendor.unicode_len();
    if n < 2 {
        return false;
    }
    let mut i: usize = 0;
    while i + 1 < n
        invariant
            n == vendor@.len(),
            2 <= n,
            i + 1 <= n,
            forall|j: int| 0 <= j < i ==> !(#[trigger] vendor@[j] == 'S' && vendor@[j + 1] == 'W'),
        decreases n - i,
    {
        if vendor.get_char(i) == 'S' && vendor.get_char(i + 1) == 'W' {
            return true;
        }
        i += 1;
    }
    false
}

/// Each step leads one phase further, or ends the start-up in failure; a
/// start-up that has ended stays as it is.
pub proof fn lemma_step_progress(
    phase: BootPhase,
    event: BootEvent,
    agent_id: Seq<char>,
    next: BootPhase,
    action: Option<BootAction>,
)
    requires
        step_allowed(phase, event, agent_id, next, action),
    ensures
        phase.is_terminal() ==> next == phase,
        !phase.is_terminal() ==> next is Failed || next.rank() == phase.rank() + 1,
        action matches Some(BootAction::Abort(_)) ==> next is Failed,
        action == Some(BootAction::LaunchServices) ==> phase is Activating && next is Serving,
{
}

/// In the course of a start-up, the phase after `i` steps is the `i`-th of
/// the handshake, unless the start-up has failed: the services are reached
/// after the six steps in their order, and in no other way.
pub proof fn lemma_course_in_order(phases: Seq<BootPhase>, i: int)
    requires
        is_course(phases),
        0 <= i < phases.len(),
    ensures
        phases[i] is Failed || phases[i].rank() == if i < 6 {
            i
        } else {
            6
        },
        phases[i] is Serving ==> i >= 6 && phases[5] is Activating,
    decreases i,
{
    if i > 0 {
        lemma_course_in_order(phases, i - 1);
        let before = phases[i - 1];
        assert(can_follow(before, phases[i]));
        let (event, agent_id, action) = choose|
            event: BootEvent,
            agent_id: Seq<char>,
            action: Option<BootAction>,
        | #[trigger] step_allowed(before, event, agent_id, phases[i], action);
        lemma_step_progress(before, event, agent_id, phases[i], action);
        if i >= 6 {
            lemma_course_in_order(phases, 5);
            if phases[i] is Serving && phases[5] is Failed {
                lemma_failure_is_final(phases, 5, i);
            }
        }
    }
}

/// Once the start-up has failed, it stays failed.
pub proof fn lemma_failure_is_final(phases: Seq<BootPhase>, i: int, j: int)
    requires
        is_course(phases),
        0 <= i <= j < phases.len(),
        phases[i] is Failed,
    ensures
        phases[j] is Failed,
    decreases j - i,
{
    if i < j {
        lemma_failure_is_final(phases, i, j - 1);
        let before = phases[j - 1];
        assert(can_follow(before, phases[j]));
        let (event, agent_id, action) = choose|
            event: BootEvent,
            agent_id: Seq<char>,
            action: Option<BootAction>,
        | #[trigger] step_allowed(before, event, agent_id, phases[j], action);
        lemma_step_progress(before, event, agent_id, phases[j], action);
    }
}

} // verus!
