//! A composite action that places the nix daemon's configuration file:
//! first ensure the configuration directory exists, then write the rendered
//! configuration into it.

use vstd::prelude::*;
use vstd::string::StringExecFns;

use crate::create_directory::{CreateDirectory, CreateDirectoryError};
use crate::create_file::{CreateFile, CreateFileError};
use crate::describe::ActionDescription;
use crate::host::{Effect, Host};
use crate::state::ActionState;

verus! {

/// The configuration text: the caller's extra configuration (empty when
/// absent), then the derived build-users-group setting, each line terminated.
pub open spec fn rendered_nix_conf(extra_conf: Option<Seq<char>>, group: Seq<char>) -> Seq<char> {
    (match extra_conf {
        Some(e) => e,
        None => Seq::<char>::empty(),
    }) + "\nbuild-users-group = "@ + group + "\n"@
}

/// Places the nix configuration: a directory-creation child followed by a
/// file-creation child, in that fixed order. Its own lifecycle state is
/// derived from its children's, never stored separately.
#[derive(Debug)]
pub struct PlaceNixConfiguration {
    pub create_directory: CreateDirectory,
    pub create_file: CreateFile,
}

/// The closed set of ways this action can fail: one variant per child, so a
/// failure always names the failing step and carries its cause unchanged.
#[derive(Debug)]
pub enum PlaceNixConfigurationError {
    /// The directory-creation child failed.
    CreateDirectory(CreateDirectoryError),
    /// The file-creation child failed.
    CreateFile(CreateFileError),
}

impl PlaceNixConfigurationError {
    pub fn message(&self) -> (r: String)
        ensures
            self matches PlaceNixConfigurationError::CreateDirectory(_) ==> r@
                == "Failed to create the configuration directory"@,
            self matches PlaceNixConfigurationError::CreateFile(_) ==> r@
                == "Failed to write the configuration file"@,
    {
        match self {
            PlaceNixConfigurationError::CreateDirectory(_) => String::from_str(
                "Failed to create the configuration directory",
            ),
            PlaceNixConfigurationError::CreateFile(_) => String::from_str(
                "Failed to write the configuration file",
            ),
        }
    }
}

impl PlaceNixConfiguration {
    /// The derived lifecycle state: `Completed` when every child is,
    /// `Uncompleted` when every child is, `Progress` otherwise.
    pub open spec fn spec_state(self) -> ActionState {
        if self.create_directory.action_state == ActionState::Completed
            && self.create_file.action_state == ActionState::Completed {
            ActionState::Completed
        } else if self.create_directory.action_state == ActionState::Uncompleted
            && self.create_file.action_state == ActionState::Uncompleted {
            ActionState::Uncompleted
        } else {
            ActionState::Progress
        }
    }

    /// The derived lifecycle state, as a value.
    pub fn state(&self) -> (s: ActionState)
        ensures
            s == self.spec_state(),
    {
        if self.create_directory.action_state == ActionState::Completed
            && self.create_file.action_state == ActionState::Completed {
            ActionState::Completed
        } else if self.create_directory.action_state == ActionState::Uncompleted
            && self.create_file.action_state == ActionState::Uncompleted {
            ActionState::Uncompleted
        } else {
            ActionState::Progress
        }
    }

    /// The full behaviour of `execute`: the directory child runs strictly
    /// before the file child, the file child runs only once the directory
    /// child has succeeded, and an error names the child that failed.
    pub open spec fn execute_ensures(
        pre: PlaceNixConfiguration,
        post: PlaceNixConfiguration,
        log_pre: Seq<Effect>,
        log_post: Seq<Effect>,
        r: Result<(), PlaceNixConfigurationError>,
    ) -> bool {
        &&& (pre.spec_state() == ActionState::Completed ==> (r matches Ok(_) && post == pre
            && log_post =~= log_pre))
        &&& match r {
            Ok(_) => {
                &&& post.create_directory == pre.create_directory.with_state(
                    ActionState::Completed,
                )
                &&& post.create_file == pre.create_file.with_state(ActionState::Completed)
                &&& log_post =~= log_pre + pre.create_directory.execute_delta()
                    + pre.create_file.execute_delta()
            },
            Err(PlaceNixConfigurationError::CreateDirectory(e)) => {
                &&& post.create_directory == pre.create_directory.with_state(ActionState::Progress)
                &&& pre.create_directory.action_state != ActionState::Completed
                &&& post.create_file == pre.create_file
                &&& log_post =~= log_pre + pre.create_directory.execute_delta()
                &&& e matches CreateDirectoryError::Host(_)
            },
            Err(PlaceNixConfigurationError::CreateFile(e)) => {
                &&& post.create_directory == pre.create_directory.with_state(ActionState::Completed)
                &&& post.create_file == pre.create_file.with_state(ActionState::Progress)
                &&& pre.create_file.action_state != ActionState::Completed
                &&& log_post =~= log_pre + pre.create_directory.execute_delta()
                    + pre.create_file.execute_delta()
                &&& e matches CreateFileError::Host(_)
            },
        }
    }

    /// The full behaviour of `revert`: the children are undone in the
    /// reverse of their execution order, file first, then directory.
    pub open spec fn revert_ensures(
        pre: PlaceNixConfiguration,
        post: PlaceNixConfiguration,
        log_pre: Seq<Effect>,
        log_post: Seq<Effect>,
        r: Result<(), PlaceNixConfigurationError>,
    ) -> bool {
        &&& (pre.spec_state() == ActionState::Uncompleted ==> (r matches Ok(_) && post == pre
            && log_post =~= log_pre))
        &&& match r {
            Ok(_) => {
                &&& post.create_directory == pre.create_directory.with_state(
                    ActionState::Uncompleted,
                )
                &&& post.create_file == pre.create_file.with_state(ActionState::Uncompleted)
                &&& log_post =~= log_pre + pre.create_file.revert_delta()
                    + pre.create_directory.revert_delta()
            },
            Err(PlaceNixConfigurationError::CreateFile(e)) => {
                &&& post.create_file == pre.create_file.with_state(ActionState::Progress)
                &&& pre.create_file.action_state != ActionState::Uncompleted
                &&& post.create_directory == pre.create_directory
                &&& log_post =~= log_pre + pre.create_file.revert_delta()
                &&& e matches CreateFileError::Host(_)
            },
            Err(PlaceNixConfigurationError::CreateDirectory(e)) => {
                &&& post.create_file == pre.create_file.with_state(ActionState::Uncompleted)
                &&& post.create_directory == pre.create_directory.with_state(ActionState::Progress)
                &&& pre.create_directory.action_state != ActionState::Uncompleted
                &&& log_post =~= log_pre + pre.create_file.revert_delta()
                    + pre.create_directory.revert_delta()
                &&& e matches CreateDirectoryError::Host(_)
            },
        }
    }

    /// Renders the configuration text from the group name and the caller's
    /// extra configuration, then plans the directory child and the file
    /// child, embedding both. Performs no I/O.
    pub fn plan(nix_build_group_name: String, extra_conf: Option<String>, force: bool) -> (r:
        Result<PlaceNixConfiguration, PlaceNixConfigurationError>)
        ensures
            r matches Ok(v) && ({
                &&& v.create_directory == (CreateDirectory {
                    path: v.create_directory.path,
                    user: v.create_directory.user,
                    group: v.create_directory.group,
                    mode: 0o0755,
                    force,
                    action_state: ActionState::Uncompleted,
                })
                &&& v.create_directory.path@ == "/etc/nix"@
                &&& v.create_directory.user@ == "root"@
                &&& v.create_directory.group@ == "root"@
                &&& v.create_file.path@ == "/etc/nix/nix.conf"@
                &&& v.create_file.user.deep_view() matches Some(u) && u == "root"@
                &&& v.create_file.group.deep_view() matches Some(g) && g == "root"@
                &&& v.create_file.mode == 0o0664
                &&& v.create_file.buf@ == rendered_nix_conf(
                    extra_conf.deep_view(),
                    nix_build_group_name@,
                )
                &&& v.create_file.force == force
                &&& v.create_file.action_state == ActionState::Uncompleted
                &&& v.spec_state() == ActionState::Uncompleted
            }),
    {
        let mut buf = match extra_conf {
            Some(e) => e,
            None => String::new(),
        };
        buf.append("\nbuild-users-group = ");
        buf.append(nix_build_group_name.as_str());
        buf.append("\n");
        let create_directory = match CreateDirectory::plan(
            String::from_str("/etc/nix"),
            String::from_str("root"),
            String::from_str("root"),
            0o0755,
            force,
        ) {
            Ok(v) => v,
            Err(e) => {
                return Err(PlaceNixConfigurationError::CreateDirectory(e));
            },
        };
        let create_file = match CreateFile::plan(
            String::from_str("/etc/nix/nix.conf"),
            Some(String::from_str("root")),
            Some(String::from_str("root")),
            0o0664,
            buf,
            force,
        ) {
            Ok(v) => v,
            Err(e) => {
                return Err(PlaceNixConfigurationError::CreateFile(e));
            },
        };
        Ok(PlaceNixConfiguration { create_directory, create_file })
    }

    /// The descriptions of the children that still have work to apply, in
    /// execution order: the directory's, then the file's; empty exactly when
    /// every child is `Completed`.
    pub fn describe_execute(&self) -> (r: Vec<ActionDescription>)
        ensures
            r@.len() == 0 <==> self.spec_state() == ActionState::Completed,
            (self.create_directory.action_state != ActionState::Completed
                && self.create_file.action_state != ActionState::Completed) ==> {
                &&& r@.len() == 2
                &&& r@[0].description@ == self.create_directory.execute_description()
                &&& r@[1].description@ == self.create_file.execute_description()
            },
            (self.create_directory.action_state == ActionState::Completed
                && self.create_file.action_state != ActionState::Completed) ==> {
                &&& r@.len() == 1
                &&& r@[0].description@ == self.create_file.execute_description()
            },
            (self.create_directory.action_state != ActionState::Completed
                && self.create_file.action_state == ActionState::Completed) ==> {
                &&& r@.len() == 1
                &&& r@[0].description@ == self.create_directory.execute_description()
            },
    {
        let mut r = self.create_directory.describe_execute();
        let mut f = self.create_file.describe_execute();
        r.append(&mut f);
        r
    }

    /// The descriptions of the children that still have work to undo, in
    /// reversion order: the file's, then the directory's; empty exactly when
    /// every child is `Uncompleted`.
    pub fn describe_revert(&self) -> (r: Vec<ActionDescription>)
        ensures
            r@.len() == 0 <==> self.spec_state() == ActionState::Uncompleted,
            (self.create_file.action_state != ActionState::Uncompleted
                && self.create_directory.action_state != ActionState::Uncompleted) ==> {
                &&& r@.len() == 2
                &&& r@[0].description@ == self.create_file.revert_description()
                &&& r@[1].description@ == self.create_directory.revert_description()
            },
            (self.create_file.action_state == ActionState::Uncompleted
                && self.create_directory.action_state != ActionState::Uncompleted) ==> {
                &&& r@.len() == 1
                &&& r@[0].description@ == self.create_directory.revert_description()
            },
            (self.create_file.action_state != ActionState::Uncompleted
                && self.create_directory.action_state == ActionState::Uncompleted) ==> {
                &&& r@.len() == 1
                &&& r@[0].description@ == self.create_file.revert_description()
            },
    {
        let mut r = self.create_file.describe_revert();
        let mut d = self.create_directory.describe_revert();
        r.append(&mut d);
        r
    }

    /// Execute the directory child, then the file child, in that order: a
    /// file cannot be written into a directory that does not yet exist. Each
    /// child skips itself when already `Completed`.
    pub fn execute<H: Host>(&mut self, host: &mut H) -> (r: Result<(), PlaceNixConfigurationError>)
        ensures
            PlaceNixConfiguration::execute_ensures(
                *old(self),
                *final(self),
                old(host).log(),
                final(host).log(),
                r,
            ),
    {
        match self.create_directory.execute(host) {
            Ok(_) => {},
            Err(e) => {
                return Err(PlaceNixConfigurationError::CreateDirectory(e));
            },
        }
        match self.create_file.execute(host) {
            Ok(_) => Ok(()),
            Err(e) => Err(PlaceNixConfigurationError::CreateFile(e)),
        }
    }

    /// Revert the file child, then the directory child: the reverse of the
    /// execution order, so the directory is never removed while the file
    /// still lives in it. Each child skips itself when already
    /// `Uncompleted`.
    pub fn revert<H: Host>(&mut self, host: &mut H) -> (r: Result<(), PlaceNixConfigurationError>)
        ensures
            PlaceNixConfiguration::revert_ensures(
                *old(self),
                *final(self),
                old(host).log(),
                final(host).log(),
                r,
            ),
    {
        match self.create_file.revert(host) {
            Ok(_) => {},
            Err(e) => {
                return Err(PlaceNixConfigurationError::CreateFile(e));
            },
        }
        match self.create_directory.revert(host) {
            Ok(_) => Ok(()),
            Err(e) => Err(PlaceNixConfigurationError::CreateDirectory(e)),
        }
    }
}

} // verus!
