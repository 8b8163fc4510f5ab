//! Relay-integrity validation, which every outgoing intent undergoes.
//!
//! The validation is structural: it looks at the relay path and at the fee
//! note, not at signatures of hops.

use vstd::prelude::*;
use crate::intent::IntentView;
use crate::intent::PrivacyIntent;
use crate::mesh::MeshNetwork;
use crate::text::contains;
use crate::text::contains_text;

verus! {

/// An intent may be broadcast: its relay path names at least one hop.
pub open spec fn relay_intact(intent: IntentView) -> bool {
    intent.relay_path.len() > 0
}

/// A fee note names a currency that the mesh knows.
pub open spec fn has_currency_marker(fee: Seq<char>) -> bool {
    contains_text(fee, "SOL"@) || contains_text(fee, "NEAR"@)
}

/// An intent carries a fee note without a known currency. Such a note is
/// worth a warning and never a reason to reject.
pub open spec fn fee_unrecognized(intent: IntentView) -> bool {
    match intent.relay_fee {
        Some(fee) => !has_currency_marker(fee),
        None => false,
    }
}

/// An intent with an empty relay path is rejected, whatever else it holds.
pub proof fn lemma_empty_path_is_rejected(intent: IntentView)
    requires
        intent.relay_path.len() == 0,
    ensures
        !relay_intact(intent),
{
}

/// An intent with a hop on its relay path is accepted, whatever its fee note
/// says: a note without a known currency only warns.
pub proof fn lemma_fee_never_rejects(intent: IntentView)
    requires
        intent.relay_path.len() > 0,
    ensures
        relay_intact(intent),
{
}

impl MeshNetwork {
    /// The validator in front of every broadcast: accepts exactly the intents
    /// whose relay path is not empty.
    pub fn verify_relay_integrity(intent: &PrivacyIntent) -> (accepted: bool)
        ensures
            accepted == relay_intact(intent@),
    {
        intent.relay_path.len() > 0
    }

    /// Whether the fee note of `intent` deserves a warning: it is present and
    /// names neither `SOL` nor `NEAR`.
    pub fn fee_warning(intent: &PrivacyIntent) -> (warn: bool)
        ensures
            warn == fee_unrecognized(intent@),
    {
        match &intent.relay_fee {
            Some(fee) => !contains(fee.as_str(), "SOL") && !contains(fee.as_str(), "NEAR"),
            None => false,
        }
    }
}

} // verus!
