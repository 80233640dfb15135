//! A leaf action that ensures a directory exists with given ownership and
//! permissions.

use vstd::prelude::*;
use vstd::string::StringExecFns;

use crate::describe::ActionDescription;
use crate::host::{Effect, Host, HostError};
use crate::state::ActionState;

verus! {

/// Creates (and on revert, removes) a directory with a fixed owner, group and
/// mode.
#[derive(Debug)]
pub struct CreateDirectory {
    pub path: String,
    pub user: String,
    pub group: String,
    pub mode: u32,
    pub force: bool,
    pub action_state: ActionState,
}

/// The closed set of ways this action can fail.
#[derive(Debug)]
pub enum CreateDirectoryError {
    /// The host could not create or remove the directory.
    Host(HostError),
}

impl CreateDirectoryError {
    pub fn message(&self) -> (r: String)
        ensures
            r@ == "Failed to create or remove the directory"@,
    {
        String::from_str("Failed to create or remove the directory")
    }
}

impl CreateDirectory {
    /// The same action with its lifecycle state replaced.
    pub open spec fn with_state(self, s: ActionState) -> CreateDirectory {
        CreateDirectory {
            path: self.path,
            user: self.user,
            group: self.group,
            mode: self.mode,
            force: self.force,
            action_state: s,
        }
    }

    /// The host mutation `execute` requests when there is work left.
    pub open spec fn spec_execute_effect(self) -> Effect {
        Effect::CreateDirectory {
            path: self.path@,
            user: self.user@,
            group: self.group@,
            mode: self.mode,
        }
    }

    /// The host mutation `revert` requests when there is work left.
    pub open spec fn spec_revert_effect(self) -> Effect {
        Effect::RemoveDirectory { path: self.path@ }
    }

    /// The host mutations one call of `execute` requests.
    pub open spec fn execute_delta(self) -> Seq<Effect> {
        if self.action_state == ActionState::Completed {
            Seq::<Effect>::empty()
        } else {
            seq![self.spec_execute_effect()]
        }
    }

    /// The host mutations one call of `revert` requests.
    pub open spec fn revert_delta(self) -> Seq<Effect> {
        if self.action_state == ActionState::Uncompleted {
            Seq::<Effect>::empty()
        } else {
            seq![self.spec_revert_effect()]
        }
    }

    /// The full behaviour of `execute`: what it asked of the host, how the
    /// action changed, and when it succeeded.
    pub open spec fn execute_ensures(
        pre: CreateDirectory,
        post: CreateDirectory,
        log_pre: Seq<Effect>,
        log_post: Seq<Effect>,
        r: Result<(), CreateDirectoryError>,
    ) -> bool {
        &&& log_post =~= log_pre + pre.execute_delta()
        &&& (pre.action_state == ActionState::Completed ==> (r matches Ok(_) && post == pre))
        &&& (r matches Ok(_) ==> post == pre.with_state(ActionState::Completed))
        &&& (r matches Err(e) ==> {
            &&& post == pre.with_state(ActionState::Progress)
            &&& pre.action_state != ActionState::Completed
            &&& e matches CreateDirectoryError::Host(_)
        })
    }

    /// The full behaviour of `revert`, mirror of `execute_ensures`.
    pub open spec fn revert_ensures(
        pre: CreateDirectory,
        post: CreateDirectory,
        log_pre: Seq<Effect>,
        log_post: Seq<Effect>,
        r: Result<(), CreateDirectoryError>,
    ) -> bool {
        &&& log_post =~= log_pre + pre.revert_delta()
        &&& (pre.action_state == ActionState::Uncompleted ==> (r matches Ok(_) && post == pre))
        &&& (r matches Ok(_) ==> post == pre.with_state(ActionState::Uncompleted))
        &&& (r matches Err(e) ==> {
            &&& post == pre.with_state(ActionState::Progress)
            &&& pre.action_state != ActionState::Uncompleted
            &&& e matches CreateDirectoryError::Host(_)
        })
    }

    /// Validates and stores the configuration; performs no I/O. The planned
    /// action starts `Uncompleted`.
    pub fn plan(path: String, user: String, group: String, mode: u32, force: bool) -> (r: Result<
        CreateDirectory,
        CreateDirectoryError,
    >)
        ensures
            r matches Ok(v) && v == (CreateDirectory {
                path,
                user,
                group,
                mode,
                force,
                action_state: ActionState::Uncompleted,
            }),
    {
        Ok(CreateDirectory { path, user, group, mode, force, action_state: ActionState::Uncompleted })
    }

    /// The summary line of the pending creation.
    pub open spec fn execute_description(self) -> Seq<char> {
        "Create the directory `"@ + self.path@ + "`"@
    }

    /// The summary line of the pending removal.
    pub open spec fn revert_description(self) -> Seq<char> {
        "Remove the directory `"@ + self.path@ + "`"@
    }

    /// Nothing is left to apply once the action is `Completed`; otherwise one
    /// description of the directory it will create.
    pub fn describe_execute(&self) -> (r: Vec<ActionDescription>)
        ensures
            self.action_state == ActionState::Completed ==> r@.len() == 0,
            self.action_state != ActionState::Completed ==> {
                &&& r@.len() == 1
                &&& r@[0].description@ == self.execute_description()
                &&& r@[0].explanation@.len() == 0
            },
    {
        if self.action_state == ActionState::Completed {
            Vec::new()
        } else {
            let mut s = String::from_str("Create the directory `");
            s.append(self.path.as_str());
            s.append("`");
            let mut r: Vec<ActionDescription> = Vec::new();
            r.push(ActionDescription::new(s, Vec::new()));
            r
        }
    }

    /// Nothing is left to undo once the action is `Uncompleted`; otherwise
    /// one description of the directory it will remove.
    pub fn describe_revert(&self) -> (r: Vec<ActionDescription>)
        ensures
            self.action_state == ActionState::Uncompleted ==> r@.len() == 0,
            self.action_state != ActionState::Uncompleted ==> {
                &&& r@.len() == 1
                &&& r@[0].description@ == self.revert_description()
                &&& r@[0].explanation@.len() == 0
            },
    {
        if self.action_state == ActionState::Uncompleted {
            Vec::new()
        } else {
            let mut s = String::from_str("Remove the directory `");
            s.append(self.path.as_str());
            s.append("`");
            let mut r: Vec<ActionDescription> = Vec::new();
            r.push(ActionDescription::new(s, Vec::new()));
            r
        }
    }

    /// Idempotently create the directory: a no-op when already `Completed`,
    /// otherwise one creation request to the host, advancing to `Completed`
    /// only on success.
    pub fn execute<H: Host>(&mut self, host: &mut H) -> (r: Result<(), CreateDirectoryError>)
        ensures
            CreateDirectory::execute_ensures(
                *old(self),
                *final(self),
                old(host).log(),
                final(host).log(),
                r,
            ),
    {
        if self.action_state == ActionState::Completed {
            return Ok(());
        }
        self.action_state = ActionState::Progress;
        match host.create_directory(&self.path, &self.user, &self.group, self.mode) {
            Ok(_) => {
                self.action_state = ActionState::Completed;
                Ok(())
            },
            Err(e) => Err(CreateDirectoryError::Host(e)),
        }
    }

    /// Idempotently remove the directory: a no-op when already `Uncompleted`,
    /// otherwise one removal request to the host, returning to `Uncompleted`
    /// only on success.
    pub fn revert<H: Host>(&mut self, host: &mut H) -> (r: Result<(), CreateDirectoryError>)
        ensures
            CreateDirectory::revert_ensures(
                *old(self),
                *final(self),
                old(host).log(),
                final(host).log(),
                r,
            ),
    {
        if self.action_state == ActionState::Uncompleted {
            return Ok(());
        }
        self.action_state = ActionState::Progress;
        match host.remove_directory(&self.path) {
            Ok(_) => {
                self.action_state = ActionState::Uncompleted;
                Ok(())
            },
            Err(e) => Err(CreateDirectoryError::Host(e)),
        }
    }
}

} // verus!
