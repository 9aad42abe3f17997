//! Filesystem events as the watcher sees them: a kind and the affected paths.
//!
//! The kinds form a small tree (what happened, and for some kinds how). Each
//! kind has a canonical text, which is what a notification carries: the name
//! of the variant, followed in parentheses by the text of its detail where it
//! has one, as in `Modify(Data(Content))`.

use vstd::prelude::*;

verus! {

/// How a file was opened or closed.
#[derive(Clone, Copy, Debug, PartialEq, Eq, Hash, Structural)]
pub enum AccessMode {
    Any,
    Execute,
    Read,
    Write,
    Other,
}

/// What kind of access happened.
#[derive(Clone, Copy, Debug, PartialEq, Eq, Hash, Structural)]
pub enum AccessKind {
    Any,
    Read,
    Open(AccessMode),
    Close(AccessMode),
    Other,
}

/// What was created.
#[derive(Clone, Copy, Debug, PartialEq, Eq, Hash, Structural)]
pub enum CreateKind {
    Any,
    File,
    Folder,
    Other,
}

/// How the content of a file changed.
#[derive(Clone, Copy, Debug, PartialEq, Eq, Hash, Structural)]
pub enum DataChange {
    Any,
    Size,
    Content,
    Other,
}

/// Which piece of metadata changed.
#[derive(Clone, Copy, Debug, PartialEq, Eq, Hash, Structural)]
pub enum MetadataKind {
    Any,
    AccessTime,
    WriteTime,
    Permissions,
    Ownership,
    Extended,
    Other,
}

/// Which side of a rename an event reports.
#[derive(Clone, Copy, Debug, PartialEq, Eq, Hash, Structural)]
pub enum RenameMode {
    Any,
    To,
    From,
    Both,
    Other,
}

/// What was modified.
#[derive(Clone, Copy, Debug, PartialEq, Eq, Hash, Structural)]
pub enum ModifyKind {
    Any,
    Data(DataChange),
    Metadata(MetadataKind),
    Name(RenameMode),
    Other,
}

/// What was removed.
#[derive(Clone, Copy, Debug, PartialEq, Eq, Hash, Structural)]
pub enum RemoveKind {
    Any,
    File,
    Folder,
    Other,
}

/// The category of a filesystem event.
#[derive(Clone, Copy, Debug, PartialEq, Eq, Hash, Structural)]
pub enum EventKind {
    Any,
    Access(AccessKind),
    Create(CreateKind),
    Modify(ModifyKind),
    Remove(RemoveKind),
    Other,
}

/// The text of a variant that carries a detail: `name(detail)`.
pub open spec fn wrapped(name: Seq<char>, detail: Seq<char>) -> Seq<char> {
    name + "("@ + detail + ")"@
}

/// Builds `name(detail)`.
fn wrap(name: &str, detail: String) -> (s: String)
    ensures
        s@ == wrapped(name@, detail@),
{
    let mut s = String::from_str(name);
    s.append("(");
    s.append(detail.as_str());
    s.append(")");
    s
}

impl AccessMode {
    /// The canonical text of this mode.
    pub open spec fn text(self) -> Seq<char> {
        match self {
            AccessMode::Any => "Any"@,
            AccessMode::Execute => "Execute"@,
            AccessMode::Read => "Read"@,
            AccessMode::Write => "Write"@,
            AccessMode::Other => "Other"@,
        }
    }

    /// Renders this mode as its canonical text.
    pub fn render(self) -> (s: String)
        ensures
            s@ == self.text(),
    {
        match self {
            AccessMode::Any => String::from_str("Any"),
            AccessMode::Execute => String::from_str("Execute"),
            AccessMode::Read => String::from_str("Read"),
            AccessMode::Write => String::from_str("Write"),
            AccessMode::Other => String::from_str("Other"),
        }
    }
}

impl AccessKind {
    /// The canonical text of this access kind.
    pub open spec fn text(self) -> Seq<char> {
        match self {
            AccessKind::Any => "Any"@,
            AccessKind::Read => "Read"@,
            AccessKind::Open(detail) => wrapped("Open"@, detail.text()),
            AccessKind::Close(detail) => wrapped("Close"@, detail.text()),
            AccessKind::Other => "Other"@,
        }
    }

    /// Renders this access kind as its canonical text.
    pub fn render(self) -> (s: String)
        ensures
            s@ == self.text(),
    {
        match self {
            AccessKind::Any => String::from_str("Any"),
            AccessKind::Read => String::from_str("Read"),
            AccessKind::Open(detail) => wrap("Open", detail.render()),
            AccessKind::Close(detail) => wrap("Close", detail.render()),
            AccessKind::Other => String::from_str("Other"),
        }
    }
}

impl CreateKind {
    /// The canonical text of this creation kind.
    pub open spec fn text(self) -> Seq<char> {
        match self {
            CreateKind::Any => "Any"@,
            CreateKind::File => "File"@,
            CreateKind::Folder => "Folder"@,
            CreateKind::Other => "Other"@,
        }
    }

    /// Renders this creation kind as its canonical text.
    pub fn render(self) -> (s: String)
        ensures
            s@ == self.text(),
    {
        match self {
            CreateKind::Any => String::from_str("Any"),
            CreateKind::File => String::from_str("File"),
            CreateKind::Folder => String::from_str("Folder"),
            CreateKind::Other => String::from_str("Other"),
        }
    }
}

impl DataChange {
    /// The canonical text of this data change.
    pub open spec fn text(self) -> Seq<char> {
        match self {
            DataChange::Any => "Any"@,
            DataChange::Size => "Size"@,
            DataChange::Content => "Content"@,
            DataChange::Other => "Other"@,
        }
    }

    /// Renders this data change as its canonical text.
    pub fn render(self) -> (s: String)
        ensures
            s@ == self.text(),
    {
        match self {
            DataChange::Any => String::from_str("Any"),
            DataChange::Size => String::from_str("Size"),
            DataChange::Content => String::from_str("Content"),
            DataChange::Other => String::from_str("Other"),
        }
    }
}

impl MetadataKind {
    /// The canonical text of this metadata kind.
    pub open spec fn text(self) -> Seq<char> {
        match self {
            MetadataKind::Any => "Any"@,
            MetadataKind::AccessTime => "AccessTime"@,
            MetadataKind::WriteTime => "WriteTime"@,
            MetadataKind::Permissions => "Permissions"@,
            MetadataKind::Ownership => "Ownership"@,
            MetadataKind::Extended => "Extended"@,
            MetadataKind::Other => "Other"@,
        }
    }

    /// Renders this metadata kind as its canonical text.
    pub fn render(self) -> (s: String)
        ensures
            s@ == self.text(),
    {
        match self {
            MetadataKind::Any => String::from_str("Any"),
            MetadataKind::AccessTime => String::from_str("AccessTime"),
            MetadataKind::WriteTime => String::from_str("WriteTime"),
            MetadataKind::Permissions => String::from_str("Permissions"),
            MetadataKind::Ownership => String::from_str("Ownership"),
            MetadataKind::Extended => String::from_str("Extended"),
            MetadataKind::Other => String::from_str("Other"),
        }
    }
}

impl RenameMode {
    /// The canonical text of this rename mode.
    pub open spec fn text(self) -> Seq<char> {
        match self {
            RenameMode::Any => "Any"@,
            RenameMode::To => "To"@,
            RenameMode::From => "From"@,
            RenameMode::Both => "Both"@,
            RenameMode::Other => "Other"@,
        }
    }

    /// Renders this rename mode as its canonical text.
    pub fn render(self) -> (s: String)
        ensures
            s@ == self.text(),
    {
        match self {
            RenameMode::Any => String::from_str("Any"),
            RenameMode::To => String::from_str("To"),
            RenameMode::From => String::from_str("From"),
            RenameMode::Both => String::from_str("Both"),
            RenameMode::Other => String::from_str("Other"),
        }
    }
}

impl ModifyKind {
    /// The canonical text of this modification kind.
    pub open spec fn text(self) -> Seq<char> {
        match self {
            ModifyKind::Any => "Any"@,
            ModifyKind::Data(detail) => wrapped("Data"@, detail.text()),
            ModifyKind::Metadata(detail) => wrapped("Metadata"@, detail.text()),
            ModifyKind::Name(detail) => wrapped("Name"@, detail.text()),
            ModifyKind::Other => "Other"@,
        }
    }

    /// Renders this modification kind as its canonical text.
    pub fn render(self) -> (s: String)
        ensures
            s@ == self.text(),
    {
        match self {
            ModifyKind::Any => String::from_str("Any"),
            ModifyKind::Data(detail) => wrap("Data", detail.render()),
            ModifyKind::Metadata(detail) => wrap("Metadata", detail.render()),
            ModifyKind::Name(detail) => wrap("Name", detail.render()),
            ModifyKind::Other => String::from_str("Other"),
        }
    }
}

impl RemoveKind {
    /// The canonical text of this removal kind.
    pub open spec fn text(self) -> Seq<char> {
        match self {
            RemoveKind::Any => "Any"@,
            RemoveKind::File => "File"@,
            RemoveKind::Folder => "Folder"@,
            RemoveKind::Other => "Other"@,
        }
    }

    /// Renders this removal kind as its canonical text.
    pub fn render(self) -> (s: String)
        ensures
            s@ == self.text(),
    {
        match self {
            RemoveKind::Any => String::from_str("Any"),
            RemoveKind::File => String::from_str("File"),
            RemoveKind::Folder => String::from_str("Folder"),
            RemoveKind::Other => String::from_str("Other"),
        }
    }
}

impl EventKind {
    /// The canonical text of this event kind.
    pub open spec fn text(self) -> Seq<char> {
        match self {
            EventKind::Any => "Any"@,
            EventKind::Access(detail) => wrapped("Access"@, detail.text()),
            EventKind::Create(detail) => wrapped("Create"@, detail.text()),
            EventKind::Modify(detail) => wrapped("Modify"@, detail.text()),
            EventKind::Remove(detail) => wrapped("Remove"@, detail.text()),
            EventKind::Other => "Other"@,
        }
    }

    /// Renders this event kind as its canonical text.
    pub fn render(self) -> (s: String)
        ensures
            s@ == self.text(),
    {
        match self {
            EventKind::Any => String::from_str("Any"),
            EventKind::Access(detail) => wrap("Access", detail.render()),
            EventKind::Create(detail) => wrap("Create", detail.render()),
            EventKind::Modify(detail) => wrap("Modify", detail.render()),
            EventKind::Remove(detail) => wrap("Remove", detail.render()),
            EventKind::Other => String::from_str("Other"),
        }
    }
}

/// One event as the operating system's notifier reported it: what happened,
/// and to which paths, in the order the notifier named them.
#[derive(Clone, Debug, PartialEq, Eq)]
pub struct RawFsEvent {
    pub kind: EventKind,
    pub paths: Vec<String>,
}

/// The mathematical content of a [`RawFsEvent`].
pub struct RawFsEventView {
    pub kind: EventKind,
    pub paths: Seq<Seq<char>>,
}

impl View for RawFsEvent {
    type V = RawFsEventView;

    open spec fn view(&self) -> RawFsEventView {
        RawFsEventView { kind: self.kind, paths: self.paths.deep_view() }
    }
}

} // verus!
