//! The closed registry of every concrete action type, and whole-plan
//! operations over it.
//!
//! A plan is a sequence of [`Action`] values: a tagged union over the
//! concrete action types, so heterogeneous plans can be stored, persisted and
//! driven uniformly, with exhaustive matching instead of dynamic dispatch.

use vstd::prelude::*;

use crate::create_directory::{CreateDirectory, CreateDirectoryError};
use crate::create_file::{CreateFile, CreateFileError};
use crate::create_volume::{CreateVolume, CreateVolumeError};
use crate::describe::ActionDescription;
use crate::host::{Effect, Host};
use crate::place_channel_configuration::{
    PlaceChannelConfiguration,
    PlaceChannelConfigurationError,
};
use crate::place_nix_configuration::{PlaceNixConfiguration, PlaceNixConfigurationError};
use crate::state::ActionState;

verus! {

/// Every concrete action that can appear in a plan.
#[derive(Debug)]
pub enum Action {
    CreateDirectory(CreateDirectory),
    CreateFile(CreateFile),
    DarwinCreateVolume(CreateVolume),
    PlaceNixConfiguration(PlaceNixConfiguration),
    PlaceChannelConfiguration(PlaceChannelConfiguration),
}

/// Every concrete action error, one variant per action variant, wrapping the
/// action's own error unchanged.
#[derive(Debug)]
pub enum ActionError {
    CreateDirectory(CreateDirectoryError),
    CreateFile(CreateFileError),
    DarwinCreateVolume(CreateVolumeError),
    PlaceNixConfiguration(PlaceNixConfigurationError),
    PlaceChannelConfiguration(PlaceChannelConfigurationError),
}

impl From<CreateDirectory> for Action {
    fn from(v: CreateDirectory) -> (r: Action) {
        Action::CreateDirectory(v)
    }
}

impl vstd::std_specs::convert::FromSpecImpl<CreateDirectory> for Action {
    open spec fn obeys_from_spec() -> bool {
        true
    }

    open spec fn from_spec(v: CreateDirectory) -> Action {
        Action::CreateDirectory(v)
    }
}

impl From<CreateFile> for Action {
    fn from(v: CreateFile) -> (r: Action) {
        Action::CreateFile(v)
    }
}

impl vstd::std_specs::convert::FromSpecImpl<CreateFile> for Action {
    open spec fn obeys_from_spec() -> bool {
        true
    }

    open spec fn from_spec(v: CreateFile) -> Action {
        Action::CreateFile(v)
    }
}

impl From<CreateVolume> for Action {
    fn from(v: CreateVolume) -> (r: Action) {
        Action::DarwinCreateVolume(v)
    }
}

impl vstd::std_specs::convert::FromSpecImpl<CreateVolume> for Action {
    open spec fn obeys_from_spec() -> bool {
        true
    }

    open spec fn from_spec(v: CreateVolume) -> Action {
        Action::DarwinCreateVolume(v)
    }
}

impl From<PlaceNixConfiguration> for Action {
    fn from(v: PlaceNixConfiguration) -> (r: Action) {
        Action::PlaceNixConfiguration(v)
    }
}

impl vstd::std_specs::convert::FromSpecImpl<PlaceNixConfiguration> for Action {
    open spec fn obeys_from_spec() -> bool {
        true
    }

    open spec fn from_spec(v: PlaceNixConfiguration) -> Action {
        Action::PlaceNixConfiguration(v)
    }
}

impl From<PlaceChannelConfiguration> for Action {
    fn from(v: PlaceChannelConfiguration) -> (r: Action) {
        Action::PlaceChannelConfiguration(v)
    }
}

impl vstd::std_specs::convert::FromSpecImpl<PlaceChannelConfiguration> for Action {
    open spec fn obeys_from_spec() -> bool {
        true
    }

    open spec fn from_spec(v: PlaceChannelConfiguration) -> Action {
        Action::PlaceChannelConfiguration(v)
    }
}

impl Action {
    /// The lifecycle state of the node: stored for leaves, derived from the
    /// children for composites.
    pub open spec fn spec_state(self) -> ActionState {
        match self {
            Action::CreateDirectory(a) => a.action_state,
            Action::CreateFile(a) => a.action_state,
            Action::DarwinCreateVolume(a) => a.action_state,
            Action::PlaceNixConfiguration(a) => a.spec_state(),
            Action::PlaceChannelConfiguration(a) => a.spec_state(),
        }
    }

    /// The node after a successful `execute`: the same configuration, every
    /// lifecycle state `Completed`.
    pub open spec fn after_execute_ok(self) -> Action {
        match self {
            Action::CreateDirectory(a) => Action::CreateDirectory(
                a.with_state(ActionState::Completed),
            ),
            Action::CreateFile(a) => Action::CreateFile(a.with_state(ActionState::Completed)),
            Action::DarwinCreateVolume(a) => Action::DarwinCreateVolume(
                a.with_state(ActionState::Completed),
            ),
            Action::PlaceNixConfiguration(a) => Action::PlaceNixConfiguration(
                PlaceNixConfiguration {
                    create_directory: a.create_directory.with_state(ActionState::Completed),
                    create_file: a.create_file.with_state(ActionState::Completed),
                },
            ),
            Action::PlaceChannelConfiguration(a) => Action::PlaceChannelConfiguration(
                PlaceChannelConfiguration {
                    channels: a.channels,
                    create_file: a.create_file.with_state(ActionState::Completed),
                },
            ),
        }
    }

    /// The node after a successful `revert`: the same configuration, every
    /// lifecycle state `Uncompleted`.
    pub open spec fn after_revert_ok(self) -> Action {
        match self {
            Action::CreateDirectory(a) => Action::CreateDirectory(
                a.with_state(ActionState::Uncompleted),
            ),
            Action::CreateFile(a) => Action::CreateFile(a.with_state(ActionState::Uncompleted)),
            Action::DarwinCreateVolume(a) => Action::DarwinCreateVolume(
                a.with_state(ActionState::Uncompleted),
            ),
            Action::PlaceNixConfiguration(a) => Action::PlaceNixConfiguration(
                PlaceNixConfiguration {
                    create_directory: a.create_directory.with_state(ActionState::Uncompleted),
                    create_file: a.create_file.with_state(ActionState::Uncompleted),
                },
            ),
            Action::PlaceChannelConfiguration(a) => Action::PlaceChannelConfiguration(
                PlaceChannelConfiguration {
                    channels: a.channels,
                    create_file: a.create_file.with_state(ActionState::Uncompleted),
                },
            ),
        }
    }

    /// The host mutations one call of `execute` requests of this node, in
    /// order: children in declaration order for composites.
    pub open spec fn execute_delta(self) -> Seq<Effect> {
        match self {
            Action::CreateDirectory(a) => a.execute_delta(),
            Action::CreateFile(a) => a.execute_delta(),
            Action::DarwinCreateVolume(a) => a.execute_delta(),
            Action::PlaceNixConfiguration(a) => a.create_directory.execute_delta()
                + a.create_file.execute_delta(),
            Action::PlaceChannelConfiguration(a) => a.create_file.execute_delta(),
        }
    }

    /// The host mutations one call of `revert` requests of this node, in
    /// order: children in reverse declaration order for composites.
    pub open spec fn revert_delta(self) -> Seq<Effect> {
        match self {
            Action::CreateDirectory(a) => a.revert_delta(),
            Action::CreateFile(a) => a.revert_delta(),
            Action::DarwinCreateVolume(a) => a.revert_delta(),
            Action::PlaceNixConfiguration(a) => a.create_file.revert_delta()
                + a.create_directory.revert_delta(),
            Action::PlaceChannelConfiguration(a) => a.create_file.revert_delta(),
        }
    }

    /// The full behaviour of `execute`, by delegation to the contract of the
    /// wrapped action: an error wraps the wrapped action's own error, in the
    /// matching variant.
    pub open spec fn execute_ensures(
        pre: Action,
        post: Action,
        log_pre: Seq<Effect>,
        log_post: Seq<Effect>,
        r: Result<(), ActionError>,
    ) -> bool {
        match pre {
            Action::CreateDirectory(a) => post matches Action::CreateDirectory(b) && (
            (r matches Ok(_) ==> CreateDirectory::execute_ensures(a, b, log_pre, log_post, Ok(())))
                && (r matches Err(ActionError::CreateDirectory(e))
                ==> CreateDirectory::execute_ensures(a, b, log_pre, log_post, Err(e))) && (
            r matches Err(e) ==> e matches ActionError::CreateDirectory(_))),
            Action::CreateFile(a) => post matches Action::CreateFile(b) && ((r matches Ok(_)
                ==> CreateFile::execute_ensures(a, b, log_pre, log_post, Ok(()))) && (r matches Err(
                ActionError::CreateFile(e),
            ) ==> CreateFile::execute_ensures(a, b, log_pre, log_post, Err(e))) && (r matches Err(e)
                ==> e matches ActionError::CreateFile(_))),
            Action::DarwinCreateVolume(a) => post matches Action::DarwinCreateVolume(b) && ((
            r matches Ok(_) ==> CreateVolume::execute_ensures(a, b, log_pre, log_post, Ok(()))) && (
            r matches Err(ActionError::DarwinCreateVolume(e)) ==> CreateVolume::execute_ensures(
                a,
                b,
                log_pre,
                log_post,
                Err(e),
            )) && (r matches Err(e) ==> e matches ActionError::DarwinCreateVolume(_))),
            Action::PlaceNixConfiguration(a) => post matches Action::PlaceNixConfiguration(b) && ((
            r matches Ok(_) ==> PlaceNixConfiguration::execute_ensures(
                a,
                b,
                log_pre,
                log_post,
                Ok(()),
            )) && (r matches Err(ActionError::PlaceNixConfiguration(e))
                ==> PlaceNixConfiguration::execute_ensures(a, b, log_pre, log_post, Err(e))) && (
            r matches Err(e) ==> e matches ActionError::PlaceNixConfiguration(_))),
            Action::PlaceChannelConfiguration(a) => post matches Action::PlaceChannelConfiguration(
                b,
            ) && ((r matches Ok(_) ==> PlaceChannelConfiguration::execute_ensures(
                a,
                b,
                log_pre,
                log_post,
                Ok(()),
            )) && (r matches Err(ActionError::PlaceChannelConfiguration(e))
                ==> PlaceChannelConfiguration::execute_ensures(a, b, log_pre, log_post, Err(e)))
                && (r matches Err(e) ==> e matches ActionError::PlaceChannelConfiguration(_))),
        }
    }

    /// The full behaviour of `revert`, by delegation to the contract of the
    /// wrapped action.
    pub open spec fn revert_ensures(
        pre: Action,
        post: Action,
        log_pre: Seq<Effect>,
        log_post: Seq<Effect>,
        r: Result<(), ActionError>,
    ) -> bool {
        match pre {
            Action::CreateDirectory(a) => post matches Action::CreateDirectory(b) && ((r matches Ok(
                _,
            ) ==> CreateDirectory::revert_ensures(a, b, log_pre, log_post, Ok(()))) && (
            r matches Err(ActionError::CreateDirectory(e)) ==> CreateDirectory::revert_ensures(
                a,
                b,
                log_pre,
                log_post,
                Err(e),
            )) && (r matches Err(e) ==> e matches ActionError::CreateDirectory(_))),
            Action::CreateFile(a) => post matches Action::CreateFile(b) && ((r matches Ok(_)
                ==> CreateFile::revert_ensures(a, b, log_pre, log_post, Ok(()))) && (r matches Err(
                ActionError::CreateFile(e),
            ) ==> CreateFile::revert_ensures(a, b, log_pre, log_post, Err(e))) && (r matches Err(e)
                ==> e matches ActionError::CreateFile(_))),
            Action::DarwinCreateVolume(a) => post matches Action::DarwinCreateVolume(b) && ((
            r matches Ok(_) ==> CreateVolume::revert_ensures(a, b, log_pre, log_post, Ok(()))) && (
            r matches Err(ActionError::DarwinCreateVolume(e)) ==> CreateVolume::revert_ensures(
                a,
                b,
                log_pre,
                log_post,
                Err(e),
            )) && (r matches Err(e) ==> e matches ActionError::DarwinCreateVolume(_))),
            Action::PlaceNixConfiguration(a) => post matches Action::PlaceNixConfiguration(b) && ((
            r matches Ok(_) ==> PlaceNixConfiguration::revert_ensures(
                a,
                b,
                log_pre,
                log_post,
                Ok(()),
            )) && (r matches Err(ActionError::PlaceNixConfiguration(e))
                ==> PlaceNixConfiguration::revert_ensures(a, b, log_pre, log_post, Err(e))) && (
            r matches Err(e) ==> e matches ActionError::PlaceNixConfiguration(_))),
            Action::PlaceChannelConfiguration(a) => post matches Action::PlaceChannelConfiguration(
                b,
            ) && ((r matches Ok(_) ==> PlaceChannelConfiguration::revert_ensures(
                a,
                b,
                log_pre,
                log_post,
                Ok(()),
            )) && (r matches Err(ActionError::PlaceChannelConfiguration(e))
                ==> PlaceChannelConfiguration::revert_ensures(a, b, log_pre, log_post, Err(e)))
                && (r matches Err(e) ==> e matches ActionError::PlaceChannelConfiguration(_))),
        }
    }

    /// The lifecycle state of the node, as a value.
    pub fn state(&self) -> (s: ActionState)
        ensures
            s == self.spec_state(),
    {
        match self {
            Action::CreateDirectory(a) => a.action_state,
            Action::CreateFile(a) => a.action_state,
            Action::DarwinCreateVolume(a) => a.action_state,
            Action::PlaceNixConfiguration(a) => a.state(),
            Action::PlaceChannelConfiguration(a) => a.state(),
        }
    }

    /// Describe the pending application of the node, by delegation.
    pub fn describe_execute(&self) -> (r: Vec<ActionDescription>)
        ensures
            r@.len() == 0 <==> self.spec_state() == ActionState::Completed,
    {
        match self {
            Action::CreateDirectory(a) => a.describe_execute(),
            Action::CreateFile(a) => a.describe_execute(),
            Action::DarwinCreateVolume(a) => a.describe_execute(),
            Action::PlaceNixConfiguration(a) => a.describe_execute(),
            Action::PlaceChannelConfiguration(a) => a.describe_execute(),
        }
    }

    /// Describe the pending reversion of the node, by delegation.
    pub fn describe_revert(&self) -> (r: Vec<ActionDescription>)
        ensures
            r@.len() == 0 <==> self.spec_state() == ActionState::Uncompleted,
    {
        match self {
            Action::CreateDirectory(a) => a.describe_revert(),
            Action::CreateFile(a) => a.describe_revert(),
            Action::DarwinCreateVolume(a) => a.describe_revert(),
            Action::PlaceNixConfiguration(a) => a.describe_revert(),
            Action::PlaceChannelConfiguration(a) => a.describe_revert(),
        }
    }

    /// Execute the node, by delegation; an error is wrapped in the variant
    /// matching the node.
    pub fn execute<H: Host>(&mut self, host: &mut H) -> (r: Result<(), ActionError>)
        ensures
            Action::execute_ensures(
                *old(self),
                *final(self),
                old(host).log(),
                final(host).log(),
                r,
            ),
    {
        match self {
            Action::CreateDirectory(a) => match a.execute(host) {
                Ok(_) => Ok(()),
                Err(e) => Err(ActionError::CreateDirectory(e)),
            },
            Action::CreateFile(a) => match a.execute(host) {
                Ok(_) => Ok(()),
                Err(e) => Err(ActionError::CreateFile(e)),
            },
            Action::DarwinCreateVolume(a) => match a.execute(host) {
                Ok(_) => Ok(()),
                Err(e) => Err(ActionError::DarwinCreateVolume(e)),
            },
            Action::PlaceNixConfiguration(a) => match a.execute(host) {
                Ok(_) => Ok(()),
                Err(e) => Err(ActionError::PlaceNixConfiguration(e)),
            },
            Action::PlaceChannelConfiguration(a) => match a.execute(host) {
                Ok(_) => Ok(()),
                Err(e) => Err(ActionError::PlaceChannelConfiguration(e)),
            },
        }
    }

    /// Revert the node, by delegation; an error is wrapped in the variant
    /// matching the node.
    pub fn revert<H: Host>(&mut self, host: &mut H) -> (r: Result<(), ActionError>)
        ensures
            Action::revert_ensures(
                *old(self),
                *final(self),
                old(host).log(),
                final(host).log(),
                r,
            ),
    {
        match self {
            Action::CreateDirectory(a) => match a.revert(host) {
                Ok(_) => Ok(()),
                Err(e) => Err(ActionError::CreateDirectory(e)),
            },
            Action::CreateFile(a) => match a.revert(host) {
                Ok(_) => Ok(()),
                Err(e) => Err(ActionError::CreateFile(e)),
            },
            Action::DarwinCreateVolume(a) => match a.revert(host) {
                Ok(_) => Ok(()),
                Err(e) => Err(ActionError::DarwinCreateVolume(e)),
            },
            Action::PlaceNixConfiguration(a) => match a.revert(host) {
                Ok(_) => Ok(()),
                Err(e) => Err(ActionError::PlaceNixConfiguration(e)),
            },
            Action::PlaceChannelConfiguration(a) => match a.revert(host) {
                Ok(_) => Ok(()),
                Err(e) => Err(ActionError::PlaceChannelConfiguration(e)),
            },
        }
    }
}

/// The host mutations executing a whole plan requests: each node's, in plan
/// order.
pub open spec fn plan_execute_delta(actions: Seq<Action>) -> Seq<Effect>
    decreases actions.len(),
{
    if actions.len() == 0 {
        Seq::<Effect>::empty()
    } else {
        plan_execute_delta(actions.drop_last()) + actions.last().execute_delta()
    }
}

/// The host mutations reverting a whole plan requests: each node's, in the
/// reverse of plan order (the last node is undone first).
pub open spec fn plan_revert_delta(actions: Seq<Action>) -> Seq<Effect>
    decreases actions.len(),
{
    if actions.len() == 0 {
        Seq::<Effect>::empty()
    } else {
        plan_revert_delta(actions.subrange(1, actions.len() as int))
            + actions[0].revert_delta()
    }
}

/// A successful `execute` leaves the node completed with its configuration
/// kept, and asks the host for exactly the node's pending mutations.
pub proof fn lemma_execute_ok(pre: Action, post: Action, log_pre: Seq<Effect>, log_post: Seq<Effect>)
    requires
        Action::execute_ensures(pre, post, log_pre, log_post, Ok(())),
    ensures
        post == pre.after_execute_ok(),
        post.spec_state() == ActionState::Completed,
        log_post =~= log_pre + pre.execute_delta(),
{
}

/// A successful `revert` leaves the node uncompleted with its configuration
/// kept, and asks the host for exactly the node's pending undo mutations.
pub proof fn lemma_revert_ok(pre: Action, post: Action, log_pre: Seq<Effect>, log_post: Seq<Effect>)
    requires
        Action::revert_ensures(pre, post, log_pre, log_post, Ok(())),
    ensures
        post == pre.after_revert_ok(),
        post.spec_state() == ActionState::Uncompleted,
        log_post =~= log_pre + pre.revert_delta(),
{
}

/// Execute a whole plan, node by node in plan order, stopping at the first
/// failure; nodes past a failure are left untouched, and the index of the
/// failing node is reported with its error.
pub fn execute_plan<H: Host>(actions: &mut Vec<Action>, host: &mut H) -> (r: Result<
    (),
    (usize, ActionError),
>)
    ensures
        final(actions)@.len() == old(actions)@.len(),
        r matches Ok(_) ==> ({
            &&& forall|j: int|
                0 <= j < old(actions)@.len() ==> final(actions)@[j] == (#[trigger] old(
                    actions,
                )@[j]).after_execute_ok()
            &&& final(host).log() =~= old(host).log() + plan_execute_delta(old(actions)@)
        }),
        r matches Err((i, e)) ==> ({
            &&& 0 <= (i as int) < old(actions)@.len()
            &&& forall|j: int|
                0 <= j < i as int ==> final(actions)@[j] == (#[trigger] old(
                    actions,
                )@[j]).after_execute_ok()
            &&& forall|j: int|
                (i as int) < j && j < old(actions)@.len() ==> final(actions)@[j] == old(actions)@[j]
            &&& Action::execute_ensures(
                old(actions)@[i as int],
                final(actions)@[i as int],
                old(host).log() + plan_execute_delta(old(actions)@.subrange(0, i as int)),
                final(host).log(),
                Err(e),
            )
        }),
{
    let n = actions.len();
    for i in 0..n
        invariant
            n == old(actions)@.len(),
            actions@.len() == n,
            forall|j: int|
                0 <= j < i as int ==> actions@[j] == (#[trigger] old(
                    actions,
                )@[j]).after_execute_ok(),
            forall|j: int| i as int <= j < n ==> actions@[j] == old(actions)@[j],
            host.log() =~= old(host).log() + plan_execute_delta(
                old(actions)@.subrange(0, i as int),
            ),
    {
        let ghost log_before = host.log();
        let ghost action_before = actions@[i as int];
        let a = &mut actions[i];
        match a.execute(host) {
            Ok(_) => {
                proof {
                    lemma_execute_ok(action_before, actions@[i as int], log_before, host.log());
                    let done = old(actions)@.subrange(0, i as int + 1);
                    assert(done.drop_last() =~= old(actions)@.subrange(0, i as int));
                    assert(done.last() == old(actions)@[i as int]);
                }
            },
            Err(e) => {
                return Err((i, e));
            },
        }
    }
    proof {
        assert(old(actions)@.subrange(0, n as int) =~= old(actions)@);
    }
    Ok(())
}

/// Revert a whole plan in the reverse of plan order (children-last), stopping
/// at the first failure; nodes before the failing one (which would be undone
/// after it) are left untouched.
pub fn revert_plan<H: Host>(actions: &mut Vec<Action>, host: &mut H) -> (r: Result<
    (),
    (usize, ActionError),
>)
    ensures
        final(actions)@.len() == old(actions)@.len(),
        r matches Ok(_) ==> ({
            &&& forall|j: int|
                0 <= j < old(actions)@.len() ==> final(actions)@[j] == (#[trigger] old(
                    actions,
                )@[j]).after_revert_ok()
            &&& final(host).log() =~= old(host).log() + plan_revert_delta(old(actions)@)
        }),
        r matches Err((i, e)) ==> ({
            &&& 0 <= (i as int) < old(actions)@.len()
            &&& forall|j: int|
                (i as int) < j && j < old(actions)@.len() ==> final(actions)@[j] == (#[trigger] old(
                    actions,
                )@[j]).after_revert_ok()
            &&& forall|j: int| 0 <= j < i as int ==> final(actions)@[j] == old(actions)@[j]
            &&& Action::revert_ensures(
                old(actions)@[i as int],
                final(actions)@[i as int],
                old(host).log() + plan_revert_delta(
                    old(actions)@.subrange(i as int + 1, old(actions)@.len() as int),
                ),
                final(host).log(),
                Err(e),
            )
        }),
{
    let n = actions.len();
    let mut i: usize = n;
    while i > 0
        invariant
            n == old(actions)@.len(),
            actions@.len() == n,
            i <= n,
            forall|j: int|
                i as int <= j < n ==> actions@[j] == (#[trigger] old(
                    actions,
                )@[j]).after_revert_ok(),
            forall|j: int| 0 <= j < i as int ==> actions@[j] == old(actions)@[j],
            host.log() =~= old(host).log() + plan_revert_delta(
                old(actions)@.subrange(i as int, n as int),
            ),
        decreases i,
    {
        i = i - 1;
        let ghost log_before = host.log();
        let ghost action_before = actions@[i as int];
        let a = &mut actions[i];
        match a.revert(host) {
            Ok(_) => {
                proof {
                    lemma_revert_ok(action_before, actions@[i as int], log_before, host.log());
                    let done = old(actions)@.subrange(i as int, n as int);
                    assert(done.subrange(1, done.len() as int) =~= old(actions)@.subrange(
                        i as int + 1,
                        n as int,
                    ));
                    assert(done[0] == old(actions)@[i as int]);
                }
            },
            Err(e) => {
                return Err((i, e));
            },
        }
    }
    proof {
        assert(old(actions)@.subrange(0, n as int) =~= old(actions)@);
    }
    Ok(())
}

} // verus!
