//! A leaf action that writes a file with given content, ownership and
//! permissions.

use vstd::prelude::*;
use vstd::string::StringExecFns;

use crate::describe::ActionDescription;
use crate::host::{Effect, Host, HostError};
use crate::state::ActionState;

verus! {

/// Creates (and on revert, deletes) a file holding fixed content, optionally
/// owned by a given user and group.
#[derive(Debug)]
pub struct CreateFile {
    pub path: String,
    pub user: Option<String>,
    pub group: Option<String>,
    pub mode: u32,
    pub buf: String,
    pub force: bool,
    pub action_state: ActionState,
}

/// The closed set of ways this action can fail.
#[derive(Debug)]
pub enum CreateFileError {
    /// The host could not write or delete the file.
    Host(HostError),
}

impl CreateFileError {
    pub fn message(&self) -> (r: String)
        ensures
            r@ == "Failed to write or delete the file"@,
    {
        String::from_str("Failed to write or delete the file")
    }
}

impl CreateFile {
    /// The same action with its lifecycle state replaced.
    pub open spec fn with_state(self, s: ActionState) -> CreateFile {
        CreateFile {
            path: self.path,
            user: self.user,
            group: self.group,
            mode: self.mode,
            buf: self.buf,
            force: self.force,
            action_state: s,
        }
    }

    /// The host mutation `execute` requests when there is work left.
    pub open spec fn spec_execute_effect(self) -> Effect {
        Effect::CreateFile {
            path: self.path@,
            user: self.user.deep_view(),
            group: self.group.deep_view(),
            mode: self.mode,
            content: self.buf@,
        }
    }

    /// The host mutation `revert` requests when there is work left.
    pub open spec fn spec_revert_effect(self) -> Effect {
        Effect::RemoveFile { path: self.path@ }
    }

    /// The host mutations one call of `execute` requests.
    pub open spec fn execute_delta(self) -> Seq<Effect> {
        if self.action_state == ActionState::Completed {
            Seq::<Effect>::empty()
        } else {
            seq![self.spec_execute_effect()]
        }
    }

    /// The host mutations one call of `revert` requests.
    pub open spec fn revert_delta(self) -> Seq<Effect> {
        if self.action_state == ActionState::Uncompleted {
            Seq::<Effect>::empty()
        } else {
            seq![self.spec_revert_effect()]
        }
    }

    /// The full behaviour of `execute`: what it asked of the host, how the
    /// action changed, and when it succeeded.
    pub open spec fn execute_ensures(
        pre: CreateFile,
        post: CreateFile,
        log_pre: Seq<Effect>,
        log_post: Seq<Effect>,
        r: Result<(), CreateFileError>,
    ) -> bool {
        &&& log_post =~= log_pre + pre.execute_delta()
        &&& (pre.action_state == ActionState::Completed ==> (r matches Ok(_) && post == pre))
        &&& (r matches Ok(_) ==> post == pre.with_state(ActionState::Completed))
        &&& (r matches Err(e) ==> {
            &&& post == pre.with_state(ActionState::Progress)
            &&& pre.action_state != ActionState::Completed
            &&& e matches CreateFileError::Host(_)
        })
    }

    /// The full behaviour of `revert`, mirror of `execute_ensures`.
    pub open spec fn revert_ensures(
        pre: CreateFile,
        post: CreateFile,
        log_pre: Seq<Effect>,
        log_post: Seq<Effect>,
        r: Result<(), CreateFileError>,
    ) -> bool {
        &&& log_post =~= log_pre + pre.revert_delta()
        &&& (pre.action_state == ActionState::Uncompleted ==> (r matches Ok(_) && post == pre))
        &&& (r matches Ok(_) ==> post == pre.with_state(ActionState::Uncompleted))
        &&& (r matches Err(e) ==> {
            &&& post == pre.with_state(ActionState::Progress)
            &&& pre.action_state != ActionState::Uncompleted
            &&& e matches CreateFileError::Host(_)
        })
    }

    /// Validates and stores the configuration; performs no I/O. The planned
    /// action starts `Uncompleted`.
    pub fn plan(
        path: String,
        user: Option<String>,
        group: Option<String>,
        mode: u32,
        buf: String,
        force: bool,
    ) -> (r: Result<CreateFile, CreateFileError>)
        ensures
            r matches Ok(v) && v == (CreateFile {
                path,
                user,
                group,
                mode,
                buf,
                force,
                action_state: ActionState::Uncompleted,
            }),
    {
        Ok(CreateFile { path, user, group, mode, buf, force, action_state: ActionState::Uncompleted })
    }

    /// The summary line of the pending write.
    pub open spec fn execute_description(self) -> Seq<char> {
        "Create or overwrite the file `"@ + self.path@ + "`"@
    }

    /// The summary line of the pending deletion.
    pub open spec fn revert_description(self) -> Seq<char> {
        "Delete the file `"@ + self.path@ + "`"@
    }

    /// Nothing is left to apply once the action is `Completed`; otherwise one
    /// description of the file it will write.
    pub fn describe_execute(&self) -> (r: Vec<ActionDescription>)
        ensures
            self.action_state == ActionState::Completed ==> r@.len() == 0,
            self.action_state != ActionState::Completed ==> {
                &&& r@.len() == 1
                &&& r@[0].description@ == self.execute_description()
                &&& r@[0].explanation@.len() == 0
            },
    {
        if self.action_state == ActionState::Completed {
            Vec::new()
        } else {
            let mut s = String::from_str("Create or overwrite the file `");
            s.append(self.path.as_str());
            s.append("`");
            let mut r: Vec<ActionDescription> = Vec::new();
            r.push(ActionDescription::new(s, Vec::new()));
            r
        }
    }

    /// Nothing is left to undo once the action is `Uncompleted`; otherwise
    /// one description of the file it will delete.
    pub fn describe_revert(&self) -> (r: Vec<ActionDescription>)
        ensures
            self.action_state == ActionState::Uncompleted ==> r@.len() == 0,
            self.action_state != ActionState::Uncompleted ==> {
                &&& r@.len() == 1
                &&& r@[0].description@ == self.revert_description()
                &&& r@[0].explanation@.len() == 0
            },
    {
        if self.action_state == ActionState::Uncompleted {
            Vec::new()
        } else {
            let mut s = String::from_str("Delete the file `");
            s.append(self.path.as_str());
            s.append("`");
            let mut r: Vec<ActionDescription> = Vec::new();
            r.push(ActionDescription::new(s, Vec::new()));
            r
        }
    }

    /// Idempotently write the file: a no-op when already `Completed`,
    /// otherwise one write request to the host, advancing to `Completed`
    /// only on success.
    pub fn execute<H: Host>(&mut self, host: &mut H) -> (r: Result<(), CreateFileError>)
        ensures
            CreateFile::execute_ensures(
                *old(self),
                *final(self),
                old(host).log(),
                final(host).log(),
                r,
            ),
    {
        if self.action_state == ActionState::Completed {
            return Ok(());
        }
        self.action_state = ActionState::Progress;
        match host.create_file(&self.path, &self.user, &self.group, self.mode, &self.buf) {
            Ok(_) => {
                self.action_state = ActionState::Completed;
                Ok(())
            },
            Err(e) => Err(CreateFileError::Host(e)),
        }
    }

    /// Idempotently delete the file: a no-op when already `Uncompleted`,
    /// otherwise one removal request to the host, returning to `Uncompleted`
    /// only on success.
    pub fn revert<H: Host>(&mut self, host: &mut H) -> (r: Result<(), CreateFileError>)
        ensures
            CreateFile::revert_ensures(
                *old(self),
                *final(self),
                old(host).log(),
                final(host).log(),
                r,
            ),
    {
        if self.action_state == ActionState::Uncompleted {
            return Ok(());
        }
        self.action_state = ActionState::Progress;
        match host.remove_file(&self.path) {
            Ok(_) => {
                self.action_state = ActionState::Uncompleted;
                Ok(())
            },
            Err(e) => Err(CreateFileError::Host(e)),
        }
    }
}

} // verus!
