//! The directory watcher: one watch on one path, driven by a worker.
//!
//! The watcher itself never blocks and never touches the filesystem. A
//! worker owns it, carries out the [`Command`] it was last given and reports
//! what came of it as an [`Observation`]; [`DirectoryWatcher::step`] answers
//! with the next command. The watcher starts out installing its watch, runs
//! once the watch is in place, and stops only when the installation failed.

use vstd::prelude::*;
use crate::event::{RawFsEvent, RawFsEventView};
use crate::notification::{
    channel_name, installation_failure, notification_channel, report_installation_failure,
    translate, translation, ChangeNotification, ChangeNotificationView,
};

verus! {

/// Where a watcher stands in its life.
#[derive(Clone, Copy, Debug, PartialEq, Eq, Hash, Structural)]
pub enum WatcherState {
    /// The watch has been asked for and is not yet in place.
    Installing,
    /// The watch is in place; events are polled and forwarded.
    Running,
    /// The watch could not be installed; nothing more will be forwarded.
    Stopped,
}

/// What the worker has to do next.
#[derive(Clone, Debug, PartialEq, Eq)]
pub enum Command {
    /// Register a watch on `path`, on its whole subtree if `recursive`.
    Install { path: String, recursive: bool },
    /// Wait for the next event, for at most `timeout_secs` seconds.
    Poll { timeout_secs: u64 },
    /// Hand `notification` to the subscriber on `channel`, without waiting
    /// for it to be taken.
    Deliver { channel: String, notification: ChangeNotification },
    /// End the worker.
    Stop,
}

/// The mathematical content of a [`Command`].
pub enum CommandView {
    Install { path: Seq<char>, recursive: bool },
    Poll { timeout_secs: u64 },
    Deliver { channel: Seq<char>, notification: ChangeNotificationView },
    Stop,
}

impl View for Command {
    type V = CommandView;

    open spec fn view(&self) -> CommandView {
        match self {
            Command::Install { path, recursive } => CommandView::Install {
                path: path@,
                recursive: *recursive,
            },
            Command::Poll { timeout_secs } => CommandView::Poll { timeout_secs: *timeout_secs },
            Command::Deliver { channel, notification } => CommandView::Deliver {
                channel: channel@,
                notification: notification@,
            },
            Command::Stop => CommandView::Stop,
        }
    }
}

/// What the worker reports after carrying out a command.
#[derive(Clone, Debug, PartialEq, Eq)]
pub enum Observation {
    /// The watch is in place.
    Installed,
    /// The watch could not be created or attached; the text says why.
    InstallFailed(String),
    /// The notifier reported an event.
    Event(RawFsEvent),
    /// The poll interval passed without an event.
    TimedOut,
    /// The source of events has gone away.
    Disconnected,
    /// The subscriber took the notification.
    Delivered,
    /// The subscriber could not be reached.
    DeliveryFailed,
}

/// The mathematical content of an [`Observation`].
pub enum ObservationView {
    Installed,
    InstallFailed(Seq<char>),
    Event(RawFsEventView),
    TimedOut,
    Disconnected,
    Delivered,
    DeliveryFailed,
}

impl View for Observation {
    type V = ObservationView;

    open spec fn view(&self) -> ObservationView {
        match self {
            Observation::Installed => ObservationView::Installed,
            Observation::InstallFailed(reason) => ObservationView::InstallFailed(reason@),
            Observation::Event(event) => ObservationView::Event(event@),
            Observation::TimedOut => ObservationView::TimedOut,
            Observation::Disconnected => ObservationView::Disconnected,
            Observation::Delivered => ObservationView::Delivered,
            Observation::DeliveryFailed => ObservationView::DeliveryFailed,
        }
    }
}

/// The longest a single poll may wait, in seconds.
pub const POLL_TIMEOUT_SECS: u64 = 1;

/// The command that installs the watch on `path`: always on the whole subtree.
pub open spec fn install_command(path: Seq<char>) -> CommandView {
    CommandView::Install { path, recursive: true }
}

/// The command that polls for the next event.
pub open spec fn poll_command() -> CommandView {
    CommandView::Poll { timeout_secs: POLL_TIMEOUT_SECS }
}

/// The command that hands `notification` to the subscriber.
pub open spec fn deliver_command(notification: ChangeNotificationView) -> CommandView {
    CommandView::Deliver { channel: channel_name(), notification }
}

/// The state a watcher is in after `observation`.
///
/// Only the outcome of the installation moves a watcher: success makes it
/// run, failure stops it. A running watcher keeps running whatever is
/// observed (a timeout, a vanished event source and a failed delivery
/// included), and a stopped one stays stopped.
pub open spec fn next_state(state: WatcherState, observation: ObservationView) -> WatcherState {
    match state {
        WatcherState::Installing => match observation {
            ObservationView::Installed => WatcherState::Running,
            ObservationView::InstallFailed(_) => WatcherState::Stopped,
            _ => WatcherState::Installing,
        },
        WatcherState::Running => WatcherState::Running,
        WatcherState::Stopped => WatcherState::Stopped,
    }
}

/// The command a watcher on `path` answers `observation` with.
///
/// While installing: poll once the watch is in place, deliver the failure
/// notification if it could not be installed, and otherwise the installation
/// is still to be done. While running: an event is delivered as its
/// translation, and everything else leads back to polling. Once stopped the
/// answer is always to stop.
pub open spec fn next_command(
    path: Seq<char>,
    state: WatcherState,
    observation: ObservationView,
) -> CommandView {
    match state {
        WatcherState::Installing => match observation {
            ObservationView::Installed => poll_command(),
            ObservationView::InstallFailed(reason) => deliver_command(
                installation_failure(path, reason),
            ),
            _ => install_command(path),
        },
        WatcherState::Running => match observation {
            ObservationView::Event(event) => deliver_command(translation(event)),
            _ => poll_command(),
        },
        WatcherState::Stopped => CommandView::Stop,
    }
}

/// The text that acknowledges a watch on `path`.
pub open spec fn acknowledgement(path: Seq<char>) -> Seq<char> {
    "Watching: "@ + path
}

/// Whether `needle` occurs in `text` as a contiguous run.
pub open spec fn occurs_in(needle: Seq<char>, text: Seq<char>) -> bool {
    exists|at: int|
        0 <= at && at + needle.len() <= text.len() && #[trigger] text.subrange(
            at,
            at + needle.len(),
        ) == needle
}

/// One watch on one path.
#[derive(Debug)]
pub struct DirectoryWatcher {
    path: String,
    state: WatcherState,
}

/// The mathematical content of a [`DirectoryWatcher`].
pub struct DirectoryWatcherView {
    pub path: Seq<char>,
    pub state: WatcherState,
}

impl View for DirectoryWatcher {
    type V = DirectoryWatcherView;

    closed spec fn view(&self) -> DirectoryWatcherView {
        DirectoryWatcherView { path: self.path@, state: self.state }
    }
}

impl DirectoryWatcher {
    /// Starts a watch on `path`.
    ///
    /// Returns at once with the watcher, still installing, and with the
    /// acknowledgement for the caller, which names the path.
    pub fn start_watch(path: String) -> (started: (DirectoryWatcher, String))
        ensures
            started.0@ == (DirectoryWatcherView { path: path@, state: WatcherState::Installing }),
            started.1@ == acknowledgement(path@),
            occurs_in(path@, started.1@),
    {
        let mut ack = String::from_str("Watching: ");
        ack.append(path.as_str());
        proof {
            let head = "Watching: "@.len() as int;
            assert(ack@.subrange(head, head + path@.len()) =~= path@);
        }
        (DirectoryWatcher { path, state: WatcherState::Installing }, ack)
    }

    /// The path this watcher watches.
    pub fn path(&self) -> (path: &String)
        ensures
            path@ == self@.path,
    {
        &self.path
    }

    /// The state this watcher is in.
    pub fn state(&self) -> (state: WatcherState)
        ensures
            state == self@.state,
    {
        self.state
    }

    /// The command a worker begins with: install the watch.
    pub fn first_command(&self) -> (command: Command)
        ensures
            command@ == install_command(self@.path),
    {
        Command::Install { path: self.path.clone(), recursive: true }
    }

    /// Takes in what the worker observed and answers with what to do next.
    pub fn step(&mut self, observation: Observation) -> (command: Command)
        ensures
            final(self)@.path == old(self)@.path,
            final(self)@.state == next_state(old(self)@.state, observation@),
            command@ == next_command(old(self)@.path, old(self)@.state, observation@),
    {
        match self.state {
            WatcherState::Installing => match observation {
                Observation::Installed => {
                    self.state = WatcherState::Running;
                    Command::Poll { timeout_secs: POLL_TIMEOUT_SECS }
                },
                Observation::InstallFailed(reason) => {
                    self.state = WatcherState::Stopped;
                    Command::Deliver {
                        channel: notification_channel(),
                        notification: report_installation_failure(
                            self.path.clone(),
                            reason.as_str(),
                        ),
                    }
                },
                _ => Command::Install { path: self.path.clone(), recursive: true },
            },
            WatcherState::Running => match observation {
                Observation::Event(event) => Command::Deliver {
                    channel: notification_channel(),
                    notification: translate(event),
                },
                _ => Command::Poll { timeout_secs: POLL_TIMEOUT_SECS },
            },
            WatcherState::Stopped => Command::Stop,
        }
    }
}

} // verus!
