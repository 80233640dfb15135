//! A composite action that writes the per-user channel list: one
//! file-creation child whose content is rendered from (name, URL) pairs and
//! whose destination lives under the acting user's home directory.

use vstd::prelude::*;
use vstd::string::StringExecFns;

use crate::create_file::{CreateFile, CreateFileError};
use crate::describe::ActionDescription;
use crate::host::{Effect, Host};
use crate::state::ActionState;

verus! {

/// One rendered channel line: the URL, a space, the channel name.
pub open spec fn channel_line(channel: (String, String)) -> Seq<char> {
    channel.1@ + " "@ + channel.0@
}

/// The channel list as reporting context: each pair's rendered line, in
/// order.
pub open spec fn spec_channel_context(channels: Seq<(String, String)>) -> Seq<Seq<char>> {
    Seq::new(channels.len(), |i: int| channel_line(channels[i]))
}

/// The channel file's content: one line per (name, URL) pair, joined by
/// newlines, in the order given.
pub open spec fn rendered_channels(channels: Seq<(String, String)>) -> Seq<char>
    decreases channels.len(),
{
    if channels.len() == 0 {
        Seq::<char>::empty()
    } else if channels.len() == 1 {
        channel_line(channels[0])
    } else {
        rendered_channels(channels.drop_last()) + "\n"@ + channel_line(channels.last())
    }
}

/// Places the channel configuration: a single file-creation child, planned
/// from the channel list and the acting user's home directory. Its lifecycle
/// state is derived from its one child, never stored separately.
#[derive(Debug)]
pub struct PlaceChannelConfiguration {
    pub channels: Vec<(String, String)>,
    pub create_file: CreateFile,
}

/// The closed set of ways this action can fail.
#[derive(Debug)]
pub enum PlaceChannelConfigurationError {
    /// The file-creation child failed.
    CreateFile(CreateFileError),
    /// No home directory could be resolved at plan time.
    NoRootHome,
}

impl PlaceChannelConfigurationError {
    pub fn message(&self) -> (r: String)
        ensures
            self matches PlaceChannelConfigurationError::CreateFile(_) ==> r@
                == "Creating file"@,
            self matches PlaceChannelConfigurationError::NoRootHome ==> r@
                == "No root home found to place channel configuration in"@,
    {
        match self {
            PlaceChannelConfigurationError::CreateFile(_) => String::from_str("Creating file"),
            PlaceChannelConfigurationError::NoRootHome => String::from_str(
                "No root home found to place channel configuration in",
            ),
        }
    }
}

/// Relies on `dirs::home_dir`: the home directory of the acting user, as the
/// environment reports it, or nothing when none can be resolved. The result
/// depends on the environment, so nothing is stated of it.
#[verifier::external_body]
fn home_dir() -> (r: Option<String>) {
    dirs::home_dir().map(|p| p.to_string_lossy().into_owned())
}

impl PlaceChannelConfiguration {
    /// The derived lifecycle state: that of the one child.
    pub open spec fn spec_state(self) -> ActionState {
        self.create_file.action_state
    }

    /// The derived lifecycle state, as a value.
    pub fn state(&self) -> (s: ActionState)
        ensures
            s == self.spec_state(),
    {
        self.create_file.action_state
    }

    /// The full behaviour of `execute`: delegation to the one child.
    pub open spec fn execute_ensures(
        pre: PlaceChannelConfiguration,
        post: PlaceChannelConfiguration,
        log_pre: Seq<Effect>,
        log_post: Seq<Effect>,
        r: Result<(), PlaceChannelConfigurationError>,
    ) -> bool {
        &&& post.channels == pre.channels
        &&& (pre.spec_state() == ActionState::Completed ==> (r matches Ok(_) && post == pre
            && log_post =~= log_pre))
        &&& match r {
            Ok(_) => {
                &&& post.create_file == pre.create_file.with_state(ActionState::Completed)
                &&& log_post =~= log_pre + pre.create_file.execute_delta()
            },
            Err(PlaceChannelConfigurationError::CreateFile(e)) => {
                &&& post.create_file == pre.create_file.with_state(ActionState::Progress)
                &&& pre.create_file.action_state != ActionState::Completed
                &&& log_post =~= log_pre + pre.create_file.execute_delta()
                &&& e matches CreateFileError::Host(_)
            },
            Err(PlaceChannelConfigurationError::NoRootHome) => false,
        }
    }

    /// The full behaviour of `revert`: delegation to the one child.
    pub open spec fn revert_ensures(
        pre: PlaceChannelConfiguration,
        post: PlaceChannelConfiguration,
        log_pre: Seq<Effect>,
        log_post: Seq<Effect>,
        r: Result<(), PlaceChannelConfigurationError>,
    ) -> bool {
        &&& post.channels == pre.channels
        &&& (pre.spec_state() == ActionState::Uncompleted ==> (r matches Ok(_) && post == pre
            && log_post =~= log_pre))
        &&& match r {
            Ok(_) => {
                &&& post.create_file == pre.create_file.with_state(ActionState::Uncompleted)
                &&& log_post =~= log_pre + pre.create_file.revert_delta()
            },
            Err(PlaceChannelConfigurationError::CreateFile(e)) => {
                &&& post.create_file == pre.create_file.with_state(ActionState::Progress)
                &&& pre.create_file.action_state != ActionState::Uncompleted
                &&& log_post =~= log_pre + pre.create_file.revert_delta()
                &&& e matches CreateFileError::Host(_)
            },
            Err(PlaceChannelConfigurationError::NoRootHome) => false,
        }
    }

    /// The channel file's content, as a value.
    fn render_channels(channels: &Vec<(String, String)>) -> (buf: String)
        ensures
            buf@ == rendered_channels(channels@),
    {
        let mut buf = String::new();
        let n = channels.len();
        for i in 0..n
            invariant
                n == channels.len(),
                buf@ == rendered_channels(channels@.subrange(0, i as int)),
        {
            proof {
                let pre = channels@.subrange(0, i as int);
                let cur = channels@.subrange(0, i as int + 1);
                assert(cur.drop_last() =~= pre);
                assert(cur.last() == channels@[i as int]);
            }
            if i > 0 {
                buf.append("\n");
            }
            buf.append(channels[i].1.as_str());
            buf.append(" ");
            buf.append(channels[i].0.as_str());
        }
        proof {
            assert(channels@.subrange(0, n as int) =~= channels@);
        }
        buf
    }

    /// Plans the channel file for a given home directory: its path is the
    /// home directory followed by `/.nix-channels`, its content the rendered
    /// channel list. Performs no I/O and always succeeds.
    pub fn plan_in_home(channels: Vec<(String, String)>, home: String, force: bool) -> (r:
        PlaceChannelConfiguration)
        ensures
            r.channels@ == channels@,
            r.create_file.path@ == home@ + "/.nix-channels"@,
            r.create_file.user is None,
            r.create_file.group is None,
            r.create_file.mode == 0o0664,
            r.create_file.buf@ == rendered_channels(channels@),
            r.create_file.force == force,
            r.create_file.action_state == ActionState::Uncompleted,
            r.spec_state() == ActionState::Uncompleted,
    {
        let buf = Self::render_channels(&channels);
        let path = home.concat("/.nix-channels");
        let create_file = match CreateFile::plan(path, None, None, 0o0664, buf, force) {
            Ok(v) => v,
            // `CreateFile::plan` always succeeds.
            Err(_) => vstd::pervasive::unreached(),
        };
        PlaceChannelConfiguration { channels, create_file }
    }

    /// Resolves the acting user's home directory from the environment and
    /// plans the channel file under it; fails with `NoRootHome` when the
    /// environment offers none.
    pub fn plan(channels: Vec<(String, String)>, force: bool) -> (r: Result<
        PlaceChannelConfiguration,
        PlaceChannelConfigurationError,
    >)
        ensures
            r matches Ok(v) ==> ({
                &&& v.channels@ == channels@
                &&& (exists|home: Seq<char>| v.create_file.path@ == home + "/.nix-channels"@)
                &&& v.create_file.user is None
                &&& v.create_file.group is None
                &&& v.create_file.mode == 0o0664
                &&& v.create_file.buf@ == rendered_channels(channels@)
                &&& v.create_file.force == force
                &&& v.spec_state() == ActionState::Uncompleted
            }),
            r matches Err(e) ==> e matches PlaceChannelConfigurationError::NoRootHome,
    {
        let home = match home_dir() {
            Some(h) => h,
            None => {
                return Err(PlaceChannelConfigurationError::NoRootHome);
            },
        };
        let ghost home_chars = home@;
        let planned = Self::plan_in_home(channels, home, force);
        proof {
            assert(planned.create_file.path@ == home_chars + "/.nix-channels"@);
        }
        Ok(planned)
    }

    /// The channel list as context lines, one rendered line per pair.
    fn channel_context(&self) -> (r: Vec<String>)
        ensures
            r.deep_view() =~= spec_channel_context(self.channels@),
    {
        let mut r: Vec<String> = Vec::new();
        let n = self.channels.len();
        for i in 0..n
            invariant
                n == self.channels.len(),
                r@.len() == i,
                forall|j: int| 0 <= j < i as int ==> (#[trigger] r@[j])@ == channel_line(
                    self.channels@[j],
                ),
        {
            let mut line = self.channels[i].1.clone();
            line.append(" ");
            line.append(self.channels[i].0.as_str());
            r.push(line);
        }
        proof {
            assert(r.deep_view() =~= spec_channel_context(self.channels@));
        }
        r
    }

    /// The one child's pending-apply description, with the channel list
    /// attached as context; empty exactly when the child is `Completed`.
    pub fn describe_execute(&self) -> (r: Vec<ActionDescription>)
        ensures
            r@.len() == 0 <==> self.spec_state() == ActionState::Completed,
            self.spec_state() != ActionState::Completed ==> {
                &&& r@.len() == 1
                &&& r@[0].description@ == self.create_file.execute_description()
                &&& r@[0].explanation.deep_view() =~= spec_channel_context(self.channels@)
            },
    {
        let mut r = self.create_file.describe_execute();
        if r.len() > 0 {
            let context = self.channel_context();
            let d = &mut r[0];
            d.explanation = context;
        }
        r
    }

    /// The one child's pending-undo description, with the channel list
    /// attached as context; empty exactly when the child is `Uncompleted`.
    pub fn describe_revert(&self) -> (r: Vec<ActionDescription>)
        ensures
            r@.len() == 0 <==> self.spec_state() == ActionState::Uncompleted,
            self.spec_state() != ActionState::Uncompleted ==> {
                &&& r@.len() == 1
                &&& r@[0].description@ == self.create_file.revert_description()
                &&& r@[0].explanation.deep_view() =~= spec_channel_context(self.channels@)
            },
    {
        let mut r = self.create_file.describe_revert();
        if r.len() > 0 {
            let context = self.channel_context();
            let d = &mut r[0];
            d.explanation = context;
        }
        r
    }

    /// Idempotently place the channel file, by delegation to the one child.
    pub fn execute<H: Host>(&mut self, host: &mut H) -> (r: Result<
        (),
        PlaceChannelConfigurationError,
    >)
        ensures
            PlaceChannelConfiguration::execute_ensures(
                *old(self),
                *final(self),
                old(host).log(),
                final(host).log(),
                r,
            ),
    {
        match self.create_file.execute(host) {
            Ok(_) => Ok(()),
            Err(e) => Err(PlaceChannelConfigurationError::CreateFile(e)),
        }
    }

    /// Idempotently remove the channel file, by delegation to the one child.
    pub fn revert<H: Host>(&mut self, host: &mut H) -> (r: Result<
        (),
        PlaceChannelConfigurationError,
    >)
        ensures
            PlaceChannelConfiguration::revert_ensures(
                *old(self),
                *final(self),
                old(host).log(),
                final(host).log(),
                r,
            ),
    {
        match self.create_file.revert(host) {
            Ok(_) => Ok(()),
            Err(e) => Err(PlaceChannelConfigurationError::CreateFile(e)),
        }
    }
}

} // verus!
