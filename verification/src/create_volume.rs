//! A leaf action that adds an auxiliary APFS volume on a disk.

use vstd::prelude::*;
use vstd::string::StringExecFns;

use crate::describe::ActionDescription;
use crate::host::{Command, CommandView, Effect, Host, HostError};
use crate::state::ActionState;

verus! {

/// Creates (and on revert, removes) an APFS volume on a given disk, via the
/// host's `diskutil`, without mounting it.
#[derive(Debug)]
pub struct CreateVolume {
    pub disk: String,
    pub name: String,
    pub case_sensitive: bool,
    pub action_state: ActionState,
}

/// The closed set of ways this action can fail.
#[derive(Debug)]
pub enum CreateVolumeError {
    /// The underlying `diskutil` invocation failed.
    Command(HostError),
}

impl CreateVolumeError {
    pub fn message(&self) -> (r: String)
        ensures
            r@ == "Failed to execute command"@,
    {
        String::from_str("Failed to execute command")
    }
}

impl CreateVolume {
    /// The same action with its lifecycle state replaced.
    pub open spec fn with_state(self, s: ActionState) -> CreateVolume {
        CreateVolume {
            disk: self.disk,
            name: self.name,
            case_sensitive: self.case_sensitive,
            action_state: s,
        }
    }

    /// The command `execute` hands to the host.
    pub open spec fn spec_execute_command(self) -> CommandView {
        CommandView {
            program: "/usr/sbin/diskutil"@,
            args: seq![
                "apfs"@,
                "addVolume"@,
                self.disk@,
                if self.case_sensitive {
                    "Case-sensitive APFS"@
                } else {
                    "APFS"@
                },
                self.name@,
                "-nomount"@,
            ],
        }
    }

    /// The command `revert` hands to the host.
    pub open spec fn spec_revert_command(self) -> CommandView {
        CommandView {
            program: "/usr/sbin/diskutil"@,
            args: seq!["apfs"@, "deleteVolume"@, self.name@],
        }
    }

    /// The host mutations one call of `execute` requests: none when the
    /// action is already `Completed`, else exactly its creation command.
    pub open spec fn execute_delta(self) -> Seq<Effect> {
        if self.action_state == ActionState::Completed {
            Seq::<Effect>::empty()
        } else {
            seq![Effect::Run(self.spec_execute_command())]
        }
    }

    /// The host mutations one call of `revert` requests: none when the
    /// action is already `Uncompleted`, else exactly its removal command.
    pub open spec fn revert_delta(self) -> Seq<Effect> {
        if self.action_state == ActionState::Uncompleted {
            Seq::<Effect>::empty()
        } else {
            seq![Effect::Run(self.spec_revert_command())]
        }
    }

    /// The full behaviour of `execute`: what it asked of the host, how the
    /// action changed, and when it succeeded.
    pub open spec fn execute_ensures(
        pre: CreateVolume,
        post: CreateVolume,
        log_pre: Seq<Effect>,
        log_post: Seq<Effect>,
        r: Result<(), CreateVolumeError>,
    ) -> bool {
        &&& log_post =~= log_pre + pre.execute_delta()
        &&& (pre.action_state == ActionState::Completed ==> (r matches Ok(_) && post == pre))
        &&& (r matches Ok(_) ==> post == pre.with_state(ActionState::Completed))
        &&& (r matches Err(e) ==> {
            &&& post == pre.with_state(ActionState::Progress)
            &&& pre.action_state != ActionState::Completed
            &&& e matches CreateVolumeError::Command(_)
        })
    }

    /// The full behaviour of `revert`, mirror of `execute_ensures`.
    pub open spec fn revert_ensures(
        pre: CreateVolume,
        post: CreateVolume,
        log_pre: Seq<Effect>,
        log_post: Seq<Effect>,
        r: Result<(), CreateVolumeError>,
    ) -> bool {
        &&& log_post =~= log_pre + pre.revert_delta()
        &&& (pre.action_state == ActionState::Uncompleted ==> (r matches Ok(_) && post == pre))
        &&& (r matches Ok(_) ==> post == pre.with_state(ActionState::Uncompleted))
        &&& (r matches Err(e) ==> {
            &&& post == pre.with_state(ActionState::Progress)
            &&& pre.action_state != ActionState::Uncompleted
            &&& e matches CreateVolumeError::Command(_)
        })
    }

    /// Validates and stores the configuration; performs no I/O. The planned
    /// action starts `Uncompleted`.
    pub fn plan(disk: String, name: String, case_sensitive: bool) -> (r: Result<
        CreateVolume,
        CreateVolumeError,
    >)
        ensures
            r matches Ok(v) && v == (CreateVolume {
                disk,
                name,
                case_sensitive,
                action_state: ActionState::Uncompleted,
            }),
    {
        Ok(CreateVolume { disk, name, case_sensitive, action_state: ActionState::Uncompleted })
    }

    /// The command `execute` will hand to the host, as a value.
    pub fn execute_command(&self) -> (c: Command)
        ensures
            c@ == self.spec_execute_command(),
    {
        let mut args: Vec<String> = Vec::new();
        args.push(String::from_str("apfs"));
        args.push(String::from_str("addVolume"));
        args.push(self.disk.clone());
        if self.case_sensitive {
            args.push(String::from_str("Case-sensitive APFS"));
        } else {
            args.push(String::from_str("APFS"));
        }
        args.push(self.name.clone());
        args.push(String::from_str("-nomount"));
        let c = Command { program: String::from_str("/usr/sbin/diskutil"), args };
        proof {
            assert(c@.args =~= self.spec_execute_command().args);
        }
        c
    }

    /// The command `revert` will hand to the host, as a value.
    pub fn revert_command(&self) -> (c: Command)
        ensures
            c@ == self.spec_revert_command(),
    {
        let mut args: Vec<String> = Vec::new();
        args.push(String::from_str("apfs"));
        args.push(String::from_str("deleteVolume"));
        args.push(self.name.clone());
        let c = Command { program: String::from_str("/usr/sbin/diskutil"), args };
        proof {
            assert(c@.args =~= self.spec_revert_command().args);
        }
        c
    }

    /// The summary line of the pending creation.
    pub open spec fn execute_description(self) -> Seq<char> {
        "Create a volume on `"@ + self.disk@ + "` named `"@ + self.name@ + "`"@
    }

    /// The summary line of the pending removal.
    pub open spec fn revert_description(self) -> Seq<char> {
        "Remove the volume on `"@ + self.disk@ + "` named `"@ + self.name@ + "`"@
    }

    /// Nothing is left to apply once the action is `Completed`; otherwise one
    /// description of the volume it will create.
    pub fn describe_execute(&self) -> (r: Vec<ActionDescription>)
        ensures
            self.action_state == ActionState::Completed ==> r@.len() == 0,
            self.action_state != ActionState::Completed ==> {
                &&& r@.len() == 1
                &&& r@[0].description@ == self.execute_description()
                &&& r@[0].explanation@.len() == 0
            },
    {
        if self.action_state == ActionState::Completed {
            Vec::new()
        } else {
            let mut s = String::from_str("Create a volume on `");
            s.append(self.disk.as_str());
            s.append("` named `");
            s.append(self.name.as_str());
            s.append("`");
            let mut r: Vec<ActionDescription> = Vec::new();
            r.push(ActionDescription::new(s, Vec::new()));
            r
        }
    }

    /// Nothing is left to undo once the action is `Uncompleted`; otherwise
    /// one description of the volume it will remove.
    pub fn describe_revert(&self) -> (r: Vec<ActionDescription>)
        ensures
            self.action_state == ActionState::Uncompleted ==> r@.len() == 0,
            self.action_state != ActionState::Uncompleted ==> {
                &&& r@.len() == 1
                &&& r@[0].description@ == self.revert_description()
                &&& r@[0].explanation@.len() == 0
            },
    {
        if self.action_state == ActionState::Uncompleted {
            Vec::new()
        } else {
            let mut s = String::from_str("Remove the volume on `");
            s.append(self.disk.as_str());
            s.append("` named `");
            s.append(self.name.as_str());
            s.append("`");
            let mut r: Vec<ActionDescription> = Vec::new();
            r.push(ActionDescription::new(s, Vec::new()));
            r
        }
    }

    /// Idempotently create the volume: a no-op when already `Completed`,
    /// otherwise one `diskutil apfs addVolume` through the host, advancing to
    /// `Completed` only on success.
    pub fn execute<H: Host>(&mut self, host: &mut H) -> (r: Result<(), CreateVolumeError>)
        ensures
            CreateVolume::execute_ensures(
                *old(self),
                *final(self),
                old(host).log(),
                final(host).log(),
                r,
            ),
    {
        if self.action_state == ActionState::Completed {
            return Ok(());
        }
        self.action_state = ActionState::Progress;
        let command = self.execute_command();
        match host.run(&command) {
            Ok(_) => {
                self.action_state = ActionState::Completed;
                Ok(())
            },
            Err(e) => Err(CreateVolumeError::Command(e)),
        }
    }

    /// Idempotently remove the volume: a no-op when already `Uncompleted`,
    /// otherwise one `diskutil apfs deleteVolume` through the host, returning
    /// to `Uncompleted` only on success.
    pub fn revert<H: Host>(&mut self, host: &mut H) -> (r: Result<(), CreateVolumeError>)
        ensures
            CreateVolume::revert_ensures(
                *old(self),
                *final(self),
                old(host).log(),
                final(host).log(),
                r,
            ),
    {
        if self.action_state == ActionState::Uncompleted {
            return Ok(());
        }
        self.action_state = ActionState::Progress;
        let command = self.revert_command();
        match host.run(&command) {
            Ok(_) => {
                self.action_state = ActionState::Uncompleted;
                Ok(())
            },
            Err(e) => Err(CreateVolumeError::Command(e)),
        }
    }
}

} // verus!
