use desktop_backend::event::{
    AccessKind, AccessMode, CreateKind, DataChange, EventKind, MetadataKind, ModifyKind,
    RemoveKind, RenameMode,
};
use notify::event as os;

fn access_modes() -> Vec<(AccessMode, os::AccessMode)> {
    vec![
        (AccessMode::Any, os::AccessMode::Any),
        (AccessMode::Execute, os::AccessMode::Execute),
        (AccessMode::Read, os::AccessMode::Read),
        (AccessMode::Write, os::AccessMode::Write),
        (AccessMode::Other, os::AccessMode::Other),
    ]
}

fn all_kinds() -> Vec<(EventKind, notify::EventKind)> {
    let mut kinds = vec![
        (EventKind::Any, notify::EventKind::Any),
        (EventKind::Other, notify::EventKind::Other),
        (EventKind::Access(AccessKind::Any), notify::EventKind::Access(os::AccessKind::Any)),
        (EventKind::Access(AccessKind::Read), notify::EventKind::Access(os::AccessKind::Read)),
        (EventKind::Access(AccessKind::Other), notify::EventKind::Access(os::AccessKind::Other)),
        (EventKind::Create(CreateKind::Any), notify::EventKind::Create(os::CreateKind::Any)),
        (EventKind::Create(CreateKind::File), notify::EventKind::Create(os::CreateKind::File)),
        (EventKind::Create(CreateKind::Folder), notify::EventKind::Create(os::CreateKind::Folder)),
        (EventKind::Create(CreateKind::Other), notify::EventKind::Create(os::CreateKind::Other)),
        (EventKind::Modify(ModifyKind::Any), notify::EventKind::Modify(os::ModifyKind::Any)),
        (EventKind::Modify(ModifyKind::Other), notify::EventKind::Modify(os::ModifyKind::Other)),
        (
            EventKind::Modify(ModifyKind::Data(DataChange::Any)),
            notify::EventKind::Modify(os::ModifyKind::Data(os::DataChange::Any)),
        ),
        (
            EventKind::Modify(ModifyKind::Data(DataChange::Size)),
            notify::EventKind::Modify(os::ModifyKind::Data(os::DataChange::Size)),
        ),
        (
            EventKind::Modify(ModifyKind::Data(DataChange::Content)),
            notify::EventKind::Modify(os::ModifyKind::Data(os::DataChange::Content)),
        ),
        (
            EventKind::Modify(ModifyKind::Data(DataChange::Other)),
            notify::EventKind::Modify(os::ModifyKind::Data(os::DataChange::Other)),
        ),
        (
            EventKind::Modify(ModifyKind::Metadata(MetadataKind::Any)),
            notify::EventKind::Modify(os::ModifyKind::Metadata(os::MetadataKind::Any)),
        ),
        (
            EventKind::Modify(ModifyKind::Metadata(MetadataKind::AccessTime)),
            notify::EventKind::Modify(os::ModifyKind::Metadata(os::MetadataKind::AccessTime)),
        ),
        (
            EventKind::Modify(ModifyKind::Metadata(MetadataKind::WriteTime)),
            notify::EventKind::Modify(os::ModifyKind::Metadata(os::MetadataKind::WriteTime)),
        ),
        (
            EventKind::Modify(ModifyKind::Metadata(MetadataKind::Permissions)),
            notify::EventKind::Modify(os::ModifyKind::Metadata(os::MetadataKind::Permissions)),
        ),
        (
            EventKind::Modify(ModifyKind::Metadata(MetadataKind::Ownership)),
            notify::EventKind::Modify(os::ModifyKind::Metadata(os::MetadataKind::Ownership)),
        ),
        (
            EventKind::Modify(ModifyKind::Metadata(MetadataKind::Extended)),
            notify::EventKind::Modify(os::ModifyKind::Metadata(os::MetadataKind::Extended)),
        ),
        (
            EventKind::Modify(ModifyKind::Metadata(MetadataKind::Other)),
            notify::EventKind::Modify(os::ModifyKind::Metadata(os::MetadataKind::Other)),
        ),
        (
            EventKind::Modify(ModifyKind::Name(RenameMode::Any)),
            notify::EventKind::Modify(os::ModifyKind::Name(os::RenameMode::Any)),
        ),
        (
            EventKind::Modify(ModifyKind::Name(RenameMode::To)),
            notify::EventKind::Modify(os::ModifyKind::Name(os::RenameMode::To)),
        ),
        (
            EventKind::Modify(ModifyKind::Name(RenameMode::From)),
            notify::EventKind::Modify(os::ModifyKind::Name(os::RenameMode::From)),
        ),
        (
            EventKind::Modify(ModifyKind::Name(RenameMode::Both)),
            notify::EventKind::Modify(os::ModifyKind::Name(os::RenameMode::Both)),
        ),
        (
            EventKind::Modify(ModifyKind::Name(RenameMode::Other)),
            notify::EventKind::Modify(os::ModifyKind::Name(os::RenameMode::Other)),
        ),
        (EventKind::Remove(RemoveKind::Any), notify::EventKind::Remove(os::RemoveKind::Any)),
        (EventKind::Remove(RemoveKind::File), notify::EventKind::Remove(os::RemoveKind::File)),
        (EventKind::Remove(RemoveKind::Folder), notify::EventKind::Remove(os::RemoveKind::Folder)),
        (EventKind::Remove(RemoveKind::Other), notify::EventKind::Remove(os::RemoveKind::Other)),
    ];
    for (mode, os_mode) in access_modes() {
        kinds.push((
            EventKind::Access(AccessKind::Open(mode)),
            notify::EventKind::Access(os::AccessKind::Open(os_mode)),
        ));
        kinds.push((
            EventKind::Access(AccessKind::Close(mode)),
            notify::EventKind::Access(os::AccessKind::Close(os_mode)),
        ));
    }
    kinds
}

#[test]
fn every_kind_renders_as_the_notifier_prints_it() {
    let kinds = all_kinds();
    assert_eq!(kinds.len(), 41);
    for (kind, os_kind) in kinds {
        assert_eq!(kind.render(), format!("{:?}", os_kind));
    }
}

#[test]
fn every_access_mode_renders_as_the_notifier_prints_it() {
    for (mode, os_mode) in access_modes() {
        assert_eq!(mode.render(), format!("{:?}", os_mode));
    }
}

#[test]
fn plain_kinds_render_as_their_names() {
    assert_eq!(EventKind::Any.render(), "Any");
    assert_eq!(EventKind::Other.render(), "Other");
    assert_eq!(CreateKind::Folder.render(), "Folder");
    assert_eq!(RemoveKind::File.render(), "File");
    assert_eq!(DataChange::Size.render(), "Size");
    assert_eq!(MetadataKind::WriteTime.render(), "WriteTime");
    assert_eq!(RenameMode::Both.render(), "Both");
    assert_eq!(AccessMode::Execute.render(), "Execute");
}

#[test]
fn kinds_with_a_detail_wrap_it_in_parentheses() {
    assert_eq!(EventKind::Create(CreateKind::File).render(), "Create(File)");
    assert_eq!(EventKind::Remove(RemoveKind::File).render(), "Remove(File)");
    assert_eq!(
        EventKind::Modify(ModifyKind::Data(DataChange::Content)).render(),
        "Modify(Data(Content))"
    );
    assert_eq!(
        EventKind::Modify(ModifyKind::Name(RenameMode::From)).render(),
        "Modify(Name(From))"
    );
    assert_eq!(
        EventKind::Access(AccessKind::Close(AccessMode::Write)).render(),
        "Access(Close(Write))"
    );
    assert_eq!(AccessKind::Open(AccessMode::Any).render(), "Open(Any)");
    assert_eq!(ModifyKind::Metadata(MetadataKind::Permissions).render(), "Metadata(Permissions)");
}
