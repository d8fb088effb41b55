//! Which filesystem events call for a reload.

use vstd::prelude::*;

verus! {

/// `notify::event::AccessKind`: what kind of access an event reports. Carried
/// through, never read.
#[verifier::external_type_specification]
#[verifier::external_body]
pub struct ExAccessKind(notify::event::AccessKind);

/// `notify::event::CreateKind`: what was created. Carried through, never read.
#[verifier::external_type_specification]
#[verifier::external_body]
pub struct ExCreateKind(notify::event::CreateKind);

/// `notify::event::DataChange`: how a file's content changed. Carried
/// through, never read.
#[verifier::external_type_specification]
#[verifier::external_body]
pub struct ExDataChange(notify::event::DataChange);

/// `notify::event::MetadataKind`: which metadata changed. Carried through,
/// never read.
#[verifier::external_type_specification]
#[verifier::external_body]
pub struct ExMetadataKind(notify::event::MetadataKind);

/// `notify::event::RenameMode`: which end of a rename an event reports.
/// Carried through, never read.
#[verifier::external_type_specification]
#[verifier::external_body]
pub struct ExRenameMode(notify::event::RenameMode);

/// `notify::event::ModifyKind`, with its five variants as the watcher
/// defines them: the classifier tells a change of metadata from the others.
#[verifier::external_type_specification]
pub struct ExModifyKind(notify::event::ModifyKind);

/// `notify::event::RemoveKind`: what was removed. Carried through, never read.
#[verifier::external_type_specification]
#[verifier::external_body]
pub struct ExRemoveKind(notify::event::RemoveKind);

/// `notify::EventKind`, the change-kind tag of an event, with its six
/// variants as the watcher defines them.
#[verifier::external_type_specification]
pub struct ExEventKind(notify::EventKind);

/// `std::path::PathBuf`. Carried through, never read.
#[verifier::external_type_specification]
#[verifier::external_body]
pub struct ExPathBuf(std::path::PathBuf);

/// `notify::event::EventAttributes`. Carried through, never read.
#[verifier::external_type_specification]
#[verifier::external_body]
pub struct ExEventAttributes(notify::event::EventAttributes);

/// `notify::Event`, with its three public fields.
#[verifier::external_type_specification]
pub struct ExEvent(notify::Event);

/// `notify::Error`, the watcher's report of a failed event. Carried through,
/// never read.
#[verifier::external_type_specification]
#[verifier::external_body]
pub struct ExNotifyError(notify::Error);

/// `EventKind::is_create` tells whether the kind is the `Create` variant.
pub assume_specification[ notify::EventKind::is_create ](kind: &notify::EventKind) -> (yes: bool)
    ensures
        yes == (kind is Create),
;

/// `EventKind::is_modify` tells whether the kind is the `Modify` variant.
pub assume_specification[ notify::EventKind::is_modify ](kind: &notify::EventKind) -> (yes: bool)
    ensures
        yes == (kind is Modify),
;

/// `EventKind::is_remove` tells whether the kind is the `Remove` variant.
pub assume_specification[ notify::EventKind::is_remove ](kind: &notify::EventKind) -> (yes: bool)
    ensures
        yes == (kind is Remove),
;

/// What the session does with an event.
#[derive(Clone, Copy, Debug, PartialEq, Eq, Structural)]
pub enum Classification {
    /// The watched entry changed: call the loader.
    ReloadWorthy,
    /// Noise: nothing is reloaded.
    Ignore,
}

/// Whether a kind reports a change of metadata alone: permissions, owner,
/// timestamps and the like, with the content untouched.
pub open spec fn metadata_only(kind: notify::EventKind) -> bool {
    kind matches notify::EventKind::Modify(change) && change is Metadata
}

/// The chosen policy. An event is worth a reload when it reports that an
/// entry was created or removed, or modified in anything but its metadata
/// alone: a change of content, a rename, or a modification that the watcher
/// could not tell more about. Access, a change of metadata alone, the
/// catch-all kind and kinds outside the four categories are noise.
pub open spec fn reload_worthy(kind: notify::EventKind) -> bool {
    (kind is Modify || kind is Create || kind is Remove) && !metadata_only(kind)
}

/// Tells whether a kind reports a change of metadata alone.
fn is_metadata_only(kind: &notify::EventKind) -> (yes: bool)
    ensures
        yes == metadata_only(*kind),
{
    match kind {
        notify::EventKind::Modify(notify::event::ModifyKind::Metadata(_)) => true,
        _ => false,
    }
}

/// Classifies an event by its change-kind tag.
pub fn classify(event: &notify::Event) -> (class: Classification)
    ensures
        class == if reload_worthy(event.kind) {
            Classification::ReloadWorthy
        } else {
            Classification::Ignore
        },
{
    let changed = event.kind.is_modify() || event.kind.is_create() || event.kind.is_remove();
    if changed && !is_metadata_only(&event.kind) {
        Classification::ReloadWorthy
    } else {
        Classification::Ignore
    }
}

} // verus!
