//! Engine-wide properties, stated once over the contracts of the actions and
//! proved for every action in the registry.

use vstd::prelude::*;

use crate::create_file::CreateFileError;
use crate::create_volume::CreateVolume;
use crate::host::Effect;
use crate::place_nix_configuration::{PlaceNixConfiguration, PlaceNixConfigurationError};
use crate::registry::{plan_execute_delta, plan_revert_delta, Action, ActionError};
use crate::state::ActionState;

verus! {

/// Re-entrance of a whole plan: a plan whose every node is `Completed`
/// requests no host mutation at all when executed again.
pub proof fn lemma_completed_plan_requests_nothing(actions: Seq<Action>)
    requires
        forall|i: int|
            0 <= i < actions.len() ==> (#[trigger] actions[i]).spec_state()
                == ActionState::Completed,
    ensures
        plan_execute_delta(actions) =~= Seq::<Effect>::empty(),
    decreases actions.len(),
{
    if actions.len() > 0 {
        lemma_completed_plan_requests_nothing(actions.drop_last());
        assert(actions.last().execute_delta() =~= Seq::<Effect>::empty());
    }
}

/// Re-entrance, mirror: a plan whose every node is `Uncompleted` requests no
/// host mutation at all when reverted again.
pub proof fn lemma_uncompleted_plan_reverts_nothing(actions: Seq<Action>)
    requires
        forall|i: int|
            0 <= i < actions.len() ==> (#[trigger] actions[i]).spec_state()
                == ActionState::Uncompleted,
    ensures
        plan_revert_delta(actions) =~= Seq::<Effect>::empty(),
    decreases actions.len(),
{
    if actions.len() > 0 {
        let rest = actions.subrange(1, actions.len() as int);
        assert(forall|i: int|
            0 <= i < rest.len() ==> (#[trigger] rest[i]).spec_state()
                == ActionState::Uncompleted);
        lemma_uncompleted_plan_reverts_nothing(rest);
        assert(actions[0].revert_delta() =~= Seq::<Effect>::empty());
    }
}

/// Idempotence of `execute`: a node that is already `Completed` executes to
/// success again, unchanged, with no externally observable mutation — the
/// host's log does not grow.
pub proof fn lemma_execute_idempotent(
    pre: Action,
    post: Action,
    log_pre: Seq<Effect>,
    log_post: Seq<Effect>,
    r: Result<(), ActionError>,
)
    requires
        pre.spec_state() == ActionState::Completed,
        Action::execute_ensures(pre, post, log_pre, log_post, r),
    ensures
        r matches Ok(_),
        post == pre,
        log_post == log_pre,
{
    assert(log_post =~= log_pre);
}

/// Idempotence of `revert`: a node that is already `Uncompleted` reverts to
/// success again, unchanged, with no externally observable mutation.
pub proof fn lemma_revert_idempotent(
    pre: Action,
    post: Action,
    log_pre: Seq<Effect>,
    log_post: Seq<Effect>,
    r: Result<(), ActionError>,
)
    requires
        pre.spec_state() == ActionState::Uncompleted,
        Action::revert_ensures(pre, post, log_pre, log_post, r),
    ensures
        r matches Ok(_),
        post == pre,
        log_post == log_pre,
{
    assert(log_post =~= log_pre);
}

/// Monotonic transitions: one call of `execute` either leaves the node
/// exactly as it was, or moves it towards `Completed` — it never produces a
/// freshly-uncompleted node.
pub proof fn lemma_execute_monotonic(
    pre: Action,
    post: Action,
    log_pre: Seq<Effect>,
    log_post: Seq<Effect>,
    r: Result<(), ActionError>,
)
    requires
        Action::execute_ensures(pre, post, log_pre, log_post, r),
    ensures
        post == pre || post.spec_state() == ActionState::Completed || post.spec_state()
            == ActionState::Progress,
{
}

/// Monotonic transitions, mirror: one call of `revert` either leaves the
/// node exactly as it was, or moves it towards `Uncompleted` — it never
/// produces a freshly-completed node.
pub proof fn lemma_revert_monotonic(
    pre: Action,
    post: Action,
    log_pre: Seq<Effect>,
    log_post: Seq<Effect>,
    r: Result<(), ActionError>,
)
    requires
        Action::revert_ensures(pre, post, log_pre, log_post, r),
    ensures
        post == pre || post.spec_state() == ActionState::Uncompleted || post.spec_state()
            == ActionState::Progress,
{
}

/// Round trip: executing a freshly planned volume action and then reverting
/// it, both successfully, returns it to exactly its planned value, and asks
/// the host for exactly the creation command followed by the removal
/// command, the volume name echoed in both and the disk in the first.
pub proof fn lemma_create_volume_round_trip(
    pre: CreateVolume,
    mid: CreateVolume,
    post: CreateVolume,
    log0: Seq<Effect>,
    log1: Seq<Effect>,
    log2: Seq<Effect>,
)
    requires
        pre.action_state == ActionState::Uncompleted,
        CreateVolume::execute_ensures(pre, mid, log0, log1, Ok(())),
        CreateVolume::revert_ensures(mid, post, log1, log2, Ok(())),
    ensures
        post == pre,
        log2 =~= log0 + seq![
            Effect::Run(pre.spec_execute_command()),
            Effect::Run(pre.spec_revert_command()),
        ],
        pre.spec_execute_command().args[2] == pre.disk@,
        pre.spec_execute_command().args[4] == pre.name@,
        pre.spec_revert_command().args[2] == pre.name@,
{
}

/// Composite ordering on apply: executing the configuration-placement
/// composite from fresh requests the directory creation strictly before the
/// file write, and nothing else.
pub proof fn lemma_configuration_placement_ordering(
    pre: PlaceNixConfiguration,
    post: PlaceNixConfiguration,
    log0: Seq<Effect>,
    log1: Seq<Effect>,
)
    requires
        pre.spec_state() == ActionState::Uncompleted,
        PlaceNixConfiguration::execute_ensures(pre, post, log0, log1, Ok(())),
    ensures
        log1 =~= log0 + seq![
            pre.create_directory.spec_execute_effect(),
            pre.create_file.spec_execute_effect(),
        ],
        post.spec_state() == ActionState::Completed,
{
}

/// Composite ordering on undo: reverting the completed
/// configuration-placement composite requests the file removal strictly
/// before the directory removal — the inverse of the application order.
pub proof fn lemma_configuration_placement_revert_ordering(
    pre: PlaceNixConfiguration,
    post: PlaceNixConfiguration,
    log0: Seq<Effect>,
    log1: Seq<Effect>,
)
    requires
        pre.spec_state() == ActionState::Completed,
        PlaceNixConfiguration::revert_ensures(pre, post, log0, log1, Ok(())),
    ensures
        log1 =~= log0 + seq![
            pre.create_file.spec_revert_effect(),
            pre.create_directory.spec_revert_effect(),
        ],
        post.spec_state() == ActionState::Uncompleted,
{
}

/// Error attribution: when the configuration-placement composite fails in
/// its second (file) child, the error names that child, and the first
/// (directory) child stays `Completed`.
pub proof fn lemma_error_attribution(
    pre: PlaceNixConfiguration,
    post: PlaceNixConfiguration,
    log0: Seq<Effect>,
    log1: Seq<Effect>,
    e: CreateFileError,
)
    requires
        PlaceNixConfiguration::execute_ensures(
            pre,
            post,
            log0,
            log1,
            Err(PlaceNixConfigurationError::CreateFile(e)),
        ),
    ensures
        post.create_directory.action_state == ActionState::Completed,
        post.create_file.action_state == ActionState::Progress,
{
}

} // verus!
