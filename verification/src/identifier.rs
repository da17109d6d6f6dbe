//! How the agent's identifier follows from its configured value.
//!
//! The configured value is one of three keywords or a unique identifier in
//! text form. A value that is neither does not stop the agent: it gets a
//! fresh random identifier, as if `generate` had been configured. The policy
//! that applied is reported by [`identifier_policy`], so that a caller can
//! log the fallback.

use vstd::prelude::*;
use crate::text::{ascii_lower, str_eq};
use crate::uuid_text::{
    canonical_text, format_uuid, is_hyphenated, is_uuid_text, is_version4,
    lemma_canonical_text_of_hyphenated, lemma_canonical_text_round_trip,
    lemma_hyphenated_ignores_case, parse_uuid, random_uuid, uuid_parse_str, uuid_text_value,
};

verus! {

/// The configured value that selects the cloud-metadata placeholder.
pub open spec fn openstack_keyword() -> Seq<char> {
    "openstack"@
}

/// The configured value that selects the endorsement-key-hash placeholder.
pub open spec fn hash_ek_keyword() -> Seq<char> {
    "hash_ek"@
}

/// The configured value that asks for a fresh random identifier.
pub open spec fn generate_keyword() -> Seq<char> {
    "generate"@
}

/// Which rule of the resolution policy applies to a configured value.
#[derive(Clone, Copy, Debug, PartialEq, Eq)]
pub enum IdentifierPolicy {
    /// The keyword `openstack`: the identifier is that keyword.
    Openstack,
    /// The keyword `hash_ek`: the identifier is that keyword.
    HashEk,
    /// The keyword `generate`: a fresh random identifier.
    Generate,
    /// A unique identifier in text form, held as its bytes.
    Configured([u8; 16]),
    /// Anything else: a fresh random identifier in place of the value.
    Fallback,
}

impl IdentifierPolicy {
    /// Whether the identifier is freshly generated under this policy.
    pub open spec fn is_random(self) -> bool {
        self is Generate || self is Fallback
    }
}

/// Whether `policy` is the rule that applies to `config`, by precedence: the
/// three keywords first, then what the parser makes of the value.
pub open spec fn policy_matches(config: Seq<char>, policy: IdentifierPolicy) -> bool {
    if config == openstack_keyword() {
        policy is Openstack
    } else if config == hash_ek_keyword() {
        policy is HashEk
    } else if config == generate_keyword() {
        policy is Generate
    } else {
        match uuid_parse_str(config) {
            Some(bytes) => policy matches IdentifierPolicy::Configured(held) && held@ == bytes,
            None => policy is Fallback,
        }
    }
}

/// Whether the identifier for `config` is freshly generated.
pub open spec fn is_random_policy(config: Seq<char>) -> bool {
    ||| config == generate_keyword()
    ||| (config != openstack_keyword() && config != hash_ek_keyword() && uuid_parse_str(
        config,
    ) is None)
}

/// The identifier under `policy`, where `fresh` is the random identifier to
/// use if the policy asks for one.
pub open spec fn identifier_text(policy: IdentifierPolicy, fresh: Seq<u8>) -> Seq<char> {
    match policy {
        IdentifierPolicy::Openstack => openstack_keyword(),
        IdentifierPolicy::HashEk => hash_ek_keyword(),
        IdentifierPolicy::Configured(held) => canonical_text(held@),
        IdentifierPolicy::Generate | IdentifierPolicy::Fallback => canonical_text(fresh),
    }
}

/// The identifier for `config`, where `fresh` is the random identifier to use
/// if the policy asks for one.
pub open spec fn resolved_identifier(config: Seq<char>, fresh: Seq<u8>) -> Seq<char> {
    if config == openstack_keyword() {
        openstack_keyword()
    } else if config == hash_ek_keyword() {
        hash_ek_keyword()
    } else if config == generate_keyword() {
        canonical_text(fresh)
    } else {
        match uuid_parse_str(config) {
            Some(bytes) => canonical_text(bytes),
            None => canonical_text(fresh),
        }
    }
}

/// Some identifier with the random layout, to show that one exists.
pub open spec fn sample_version4() -> Seq<u8> {
    Seq::new(
        16,
        |i: int|
            if i == 6 {
                0x40u8
            } else if i == 8 {
                0x80u8
            } else {
                0u8
            },
    )
}

/// The three keywords have 9, 7 and 8 characters: no two are equal, and none
/// is an identifier in text form.
pub proof fn lemma_keyword_lengths()
    ensures
        openstack_keyword().len() == 9,
        hash_ek_keyword().len() == 7,
        generate_keyword().len() == 8,
{
    reveal_strlit("openstack");
    reveal_strlit("hash_ek");
    reveal_strlit("generate");
}

/// Finds the rule that applies to a configured value.
///
/// A value in one of the three text forms of an identifier is always
/// `Configured`, with the bytes that the text denotes; `Fallback` is for
/// values that the parser rejects.
pub fn identifier_policy(agent_uuid_config: &str) -> (policy: IdentifierPolicy)
    ensures
        policy_matches(agent_uuid_config@, policy),
        policy.is_random() == is_random_policy(agent_uuid_config@),
        is_uuid_text(agent_uuid_config@) ==> (policy matches IdentifierPolicy::Configured(held)
            && held@ == uuid_text_value(agent_uuid_config@)),
{
    proof {
        lemma_keyword_lengths();
    }
    if str_eq(agent_uuid_config, "openstack") {
        IdentifierPolicy::Openstack
    } else if str_eq(agent_uuid_config, "hash_ek") {
        IdentifierPolicy::HashEk
    } else if str_eq(agent_uuid_config, "generate") {
        IdentifierPolicy::Generate
    } else {
        match parse_uuid(agent_uuid_config) {
            Some(bytes) => IdentifierPolicy::Configured(bytes),
            None => IdentifierPolicy::Fallback,
        }
    }
}

/// The identifier under a policy, with the random identifier to use handed in.
pub fn identifier_for(policy: &IdentifierPolicy, fresh: &[u8; 16]) -> (id: String)
    ensures
        id@ == identifier_text(*policy, fresh@),
{
    match policy {
        IdentifierPolicy::Openstack => "openstack".to_owned(),
        IdentifierPolicy::HashEk => "hash_ek".to_owned(),
        IdentifierPolicy::Configured(held) => format_uuid(held),
        IdentifierPolicy::Generate => format_uuid(fresh),
        IdentifierPolicy::Fallback => format_uuid(fresh),
    }
}

/// Resolves the identifier for a configured value, with the random identifier
/// to use handed in.
pub fn resolve_with(agent_uuid_config: &str, fresh: &[u8; 16]) -> (id: String)
    ensures
        id@ == resolved_identifier(agent_uuid_config@, fresh@),
{
    let policy = identifier_policy(agent_uuid_config);
    identifier_for(&policy, fresh)
}

/// Resolves the agent's identifier from its configured value.
///
/// The keywords `openstack` and `hash_ek` resolve to themselves. The keyword
/// `generate` resolves to the canonical text of a fresh random identifier. An
/// identifier in text form resolves to its canonical text; in hyphenated form
/// that is the value itself in lower case. Any other value resolves as
/// `generate` does, and the result then differs from the value even when case
/// is ignored.
pub fn get_uuid(agent_uuid_config: &str) -> (id: String)
    ensures
        exists|fresh: Seq<u8>| #[trigger]
            is_version4(fresh) && id@ == resolved_identifier(agent_uuid_config@, fresh),
        id@.len() > 0,
        agent_uuid_config@ == openstack_keyword() ==> id@ == openstack_keyword(),
        agent_uuid_config@ == hash_ek_keyword() ==> id@ == hash_ek_keyword(),
        is_uuid_text(agent_uuid_config@) ==> id@ == canonical_text(
            uuid_text_value(agent_uuid_config@),
        ),
        is_hyphenated(agent_uuid_config@) ==> id@ == ascii_lower(agent_uuid_config@),
        is_random_policy(agent_uuid_config@) ==> {
            &&& is_hyphenated(id@)
            &&& is_version4(uuid_text_value(id@))
            &&& ascii_lower(id@) != ascii_lower(agent_uuid_config@)
        },
{
    let policy = identifier_policy(agent_uuid_config);
    proof {
        lemma_keyword_lengths();
        if is_hyphenated(agent_uuid_config@) {
            lemma_canonical_text_of_hyphenated(agent_uuid_config@);
        }
    }
    match policy {
        IdentifierPolicy::Generate | IdentifierPolicy::Fallback => {
            let fresh = random_uuid();
            let id = format_uuid(&fresh);
            proof {
                lemma_canonical_text_round_trip(fresh@);
                if ascii_lower(id@) == ascii_lower(agent_uuid_config@) {
                    lemma_hyphenated_ignores_case(agent_uuid_config@);
                }
                assert(is_version4(fresh@) && id@ == resolved_identifier(
                    agent_uuid_config@,
                    fresh@,
                ));
            }
            id
        },
        _ => {
            let id = identifier_for(&policy, &[0u8; 16]);
            proof {
                assert(is_version4(sample_version4()) && id@ == resolved_identifier(
                    agent_uuid_config@,
                    sample_version4(),
                ));
            }
            id
        },
    }
}

/// Where the policy is not a random one, the identifier does not depend on
/// the random source: resolving the same value again gives the same result.
pub proof fn lemma_fixed_policy_repeatable(config: Seq<char>, fresh_a: Seq<u8>, fresh_b: Seq<u8>)
    requires
        !is_random_policy(config),
    ensures
        resolved_identifier(config, fresh_a) == resolved_identifier(config, fresh_b),
{
}

/// Every resolved identifier is non-empty, and one from the random source is
/// an identifier in hyphenated form that keeps the random layout.
pub proof fn lemma_resolved_identifier_shape(config: Seq<char>, fresh: Seq<u8>)
    requires
        is_version4(fresh),
    ensures
        resolved_identifier(config, fresh).len() > 0,
        is_random_policy(config) ==> {
            &&& resolved_identifier(config, fresh) == canonical_text(fresh)
            &&& is_hyphenated(resolved_identifier(config, fresh))
            &&& is_version4(uuid_text_value(resolved_identifier(config, fresh)))
        },
{
    lemma_keyword_lengths();
    lemma_canonical_text_round_trip(fresh);
}

} // verus!
