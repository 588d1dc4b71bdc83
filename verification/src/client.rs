//! What the agent client computes around its calls to the relay: the authorization
//! header, the poll request, and the choice of the decision to wait for.
use crate::decision_outcome::SendDecisionAndWaitNoDecisionIdError;
use crate::transport::{is_uuid_v4_text, new_request_id, BearerAuthorization, GetDecisionOutcomeRequest};
use crate::types::NoxyDeliveryOutcome;
use vstd::prelude::*;
use vstd::string::StringExecFns;

verus! {

/// The value of the `authorization` header for a bearer token: `Bearer ` and the token.
pub fn bearer_authorization(auth_token: &str) -> (v: String)
    ensures
        v@ == "Bearer "@ + auth_token@,
{
    let prefix = "Bearer ".to_string();
    prefix.concat(auth_token)
}

/// The request for one poll (it carries the authorization) of the human resolution of `decision_id` for `identity_id`,
/// under a fresh request id.
pub fn decision_outcome_request(
    auth: &BearerAuthorization,
    decision_id: &str,
    identity_id: &str,
) -> (r: GetDecisionOutcomeRequest)
    ensures
        r.authorization@ == auth.value(),
        r.decision_id@ == decision_id@,
        r.identity_id@ == identity_id@,
        is_uuid_v4_text(r.request_id@),
{
    GetDecisionOutcomeRequest {
        authorization: auth.header_value(),
        request_id: new_request_id(),
        decision_id: decision_id.to_string(),
        identity_id: identity_id.to_string(),
    }
}

/// The position of the first delivery that carries a non-empty decision id, if any.
pub open spec fn first_with_decision_id(deliveries: Seq<NoxyDeliveryOutcome>) -> Option<int>
    decreases deliveries.len(),
{
    if deliveries.len() == 0 {
        None
    } else if deliveries[0].decision_id@.len() > 0 {
        Some(0)
    } else {
        match first_with_decision_id(deliveries.drop_first()) {
            Some(i) => Some(i + 1),
            None => None,
        }
    }
}

/// The decision id to wait for after `send_decision`: that of the first delivery with a
/// non-empty decision id; an error when there is none.
pub fn first_decision_id(deliveries: &Vec<NoxyDeliveryOutcome>) -> (r: Result<
    String,
    SendDecisionAndWaitNoDecisionIdError,
>)
    ensures
        r is Err <==> first_with_decision_id(deliveries@) is None,
        r matches Ok(id) ==> id@ == deliveries@[first_with_decision_id(deliveries@)->0].decision_id@,
{
    let mut i: usize = 0;
    assert(deliveries@.skip(0) =~= deliveries@);
    while i < deliveries.len()
        invariant
            0 <= i <= deliveries@.len(),
            first_with_decision_id(deliveries@) == match first_with_decision_id(
                deliveries@.skip(i as int),
            ) {
                Some(k) => Some(k + i),
                None => None::<int>,
            },
        decreases deliveries@.len() - i,
    {
        assert(deliveries@.skip(i as int).drop_first() =~= deliveries@.skip(i + 1));
        assert(deliveries@.skip(i as int)[0] == deliveries@[i as int]);
        if !deliveries[i].decision_id.as_str().is_empty() {
            return Ok(deliveries[i].decision_id.clone());
        }
        i = i + 1;
    }
    assert(deliveries@.skip(i as int).len() == 0);
    Err(SendDecisionAndWaitNoDecisionIdError)
}

/// The decision id chosen is that of the first delivery that has one: every delivery before
/// it has an empty decision id, and it has a non-empty one.
pub proof fn lemma_first_decision_id_is_first(deliveries: Seq<NoxyDeliveryOutcome>)
    ensures
        first_with_decision_id(deliveries) matches Some(i) ==> {
            &&& 0 <= i < deliveries.len()
            &&& deliveries[i].decision_id@.len() > 0
            &&& forall|j: int| 0 <= j < i ==> (#[trigger] deliveries[j]).decision_id@.len() == 0
        },
        first_with_decision_id(deliveries) is None ==> forall|j: int|
            0 <= j < deliveries.len() ==> (#[trigger] deliveries[j]).decision_id@.len() == 0,
    decreases deliveries.len(),
{
    if deliveries.len() > 0 {
        lemma_first_decision_id_is_first(deliveries.drop_first());
        assert forall|j: int| 1 <= j < deliveries.len() implies deliveries[j] == deliveries.drop_first()[j - 1] by {}
    }
}

/// When every delivery carries a decision id, as those of one batch do, the wait follows
/// the first delivery, and it finds one whenever there was at least one device.
pub proof fn lemma_first_of_complete_batch(deliveries: Seq<NoxyDeliveryOutcome>)
    requires
        forall|j: int| 0 <= j < deliveries.len() ==> (#[trigger] deliveries[j]).decision_id@.len() > 0,
    ensures
        deliveries.len() > 0 ==> first_with_decision_id(deliveries) == Some(0int),
        deliveries.len() == 0 ==> first_with_decision_id(deliveries) is None,
{
}

/// The deliveries of a batch started under a fresh decision id all carry a decision id, so
/// waiting for the outcome follows the first delivery, and it has one to follow whenever the
/// identity had at least one device.
pub proof fn lemma_batch_deliveries_lead_to_wait(b: crate::services::decision::DecisionBatch)
    requires
        b.carries_decision_ids(),
        is_uuid_v4_text(b.decision_id()),
    ensures
        b.outcomes().len() > 0 ==> first_with_decision_id(b.outcomes()) == Some(0int),
{
    assert forall|j: int| 0 <= j < b.outcomes().len() implies (#[trigger] b.outcomes()[j]).decision_id@.len()
        > 0 by {
        assert(b.outcomes()[j].decision_id@ == b.decision_id() || b.outcomes()[j].decision_id@.len() > 0);
    }
    lemma_first_of_complete_batch(b.outcomes());
}

} // verus!
