//! The outbox: one entry for each outgoing activity, written before delivery
//! is tried.

use vstd::prelude::*;
use crate::protocol::Payload;
use crate::records::ActorType;
use crate::targets::ActivitySendTargets;
use crate::uri::Uri;

verus! {

/// One outbox entry.
#[derive(Debug)]
pub struct SentActivityRecord {
    /// The identifier of the activity, which is also the entry's key.
    pub ap_id: Uri,
    pub payload: Payload,
    /// Whether the activity must be kept from public view.
    pub sensitive: bool,
    pub send_targets: ActivitySendTargets,
    pub actor_type: ActorType,
    pub actor_id: Uri,
}

impl SentActivityRecord {
    /// The entry carries an activity under that activity's identifier and
    /// names at least one receiver, none of them twice.
    pub open spec fn wf(&self) -> bool {
        &&& self.ap_id == self.payload.id_spec()
        &&& self.send_targets.wf()
        &&& self.send_targets@.is_addressed()
    }
}

/// Makes the outbox entry for an activity that `actor` sends to the given
/// targets.
pub fn send_lemmy_activity(
    activity: Payload,
    actor_type: ActorType,
    actor: &Uri,
    send_targets: ActivitySendTargets,
    sensitive: bool,
) -> (r: SentActivityRecord)
    requires
        send_targets.wf(),
        send_targets@.is_addressed(),
    ensures
        r.wf(),
        r.payload == activity,
        r.sensitive == sensitive,
        r.send_targets == send_targets,
        r.actor_type == actor_type,
        r.actor_id == *actor,
{
    SentActivityRecord {
        ap_id: activity.id().clone(),
        payload: activity,
        sensitive,
        send_targets,
        actor_type,
        actor_id: actor.clone(),
    }
}

} // verus!
