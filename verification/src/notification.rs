//! What the watcher pushes to its subscriber: one notification per
//! filesystem event, and one for a watch that could not be installed.

use vstd::prelude::*;
use crate::event::{wrapped, EventKind, RawFsEvent, RawFsEventView};

verus! {

/// A change as the subscriber sees it: the text of the event's kind and the
/// affected paths, in the order the notifier reported them.
#[derive(Clone, Debug, PartialEq, Eq)]
pub struct ChangeNotification {
    pub kind: String,
    pub paths: Vec<String>,
}

/// The mathematical content of a [`ChangeNotification`].
pub struct ChangeNotificationView {
    pub kind: Seq<char>,
    pub paths: Seq<Seq<char>>,
}

impl View for ChangeNotification {
    type V = ChangeNotificationView;

    open spec fn view(&self) -> ChangeNotificationView {
        ChangeNotificationView { kind: self.kind@, paths: self.paths.deep_view() }
    }
}

/// The notification that stands for `event`: the kind rendered as its
/// canonical text, the paths unchanged and in the same order.
pub open spec fn translation(event: RawFsEventView) -> ChangeNotificationView {
    ChangeNotificationView { kind: event.kind.text(), paths: event.paths }
}

/// The notification that reports that the watch on `path` could not be
/// installed: its kind is `Error(reason)`, its only path the watched one.
pub open spec fn installation_failure(path: Seq<char>, reason: Seq<char>) -> ChangeNotificationView {
    ChangeNotificationView { kind: wrapped("Error"@, reason), paths: seq![path] }
}

/// The name of the channel on which notifications travel.
pub open spec fn channel_name() -> Seq<char> {
    "file-change"@
}

/// Translates one filesystem event into the notification that stands for it.
pub fn translate(event: RawFsEvent) -> (notification: ChangeNotification)
    ensures
        notification@ == translation(event@),
{
    ChangeNotification { kind: event.kind.render(), paths: event.paths }
}

/// Builds the notification that reports a failed installation of the watch
/// on `path`.
pub fn report_installation_failure(path: String, reason: &str) -> (notification: ChangeNotification)
    ensures
        notification@ == installation_failure(path@, reason@),
{
    let mut kind = String::from_str("Error");
    kind.append("(");
    kind.append(reason);
    kind.append(")");
    let ghost watched = path@;
    let mut paths: Vec<String> = Vec::new();
    paths.push(path);
    assert(paths.deep_view() =~= seq![watched]);
    ChangeNotification { kind, paths }
}

/// The channel on which notifications travel.
pub fn notification_channel() -> (name: String)
    ensures
        name@ == channel_name(),
{
    String::from_str("file-change")
}

/// A report of a failed installation cannot be mistaken for a change: its
/// kind is the text of no event kind, whatever the reason says.
pub proof fn lemma_failure_is_no_change(path: Seq<char>, reason: Seq<char>, event: RawFsEventView)
    ensures
        installation_failure(path, reason).kind != translation(event).kind,
{
    reveal_strlit("Error");
    reveal_strlit("Any");
    reveal_strlit("Access");
    reveal_strlit("Create");
    reveal_strlit("Modify");
    reveal_strlit("Remove");
    reveal_strlit("Other");
    let failure = installation_failure(path, reason).kind;
    let change = translation(event).kind;
    assert(failure[0] == 'E');
    assert(change[0] != 'E') by {
        match event.kind {
            EventKind::Any => {},
            EventKind::Access(_) => {},
            EventKind::Create(_) => {},
            EventKind::Modify(_) => {},
            EventKind::Remove(_) => {},
            EventKind::Other => {},
        }
    }
}

} // verus!
