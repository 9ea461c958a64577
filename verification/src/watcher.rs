//! Directory watching: which directories are watched, and what a reported
//! change becomes on its way to the user interface.

use crate::file_ops::{parse_file_metadata, stem_title, FileMetadata};
use crate::paths::{path_file_name, path_file_stem};
use crate::text::or_empty;
use vstd::prelude::*;
use vstd::string::*;

verus! {

/// A change in a watched directory, as the user interface is told of it.
#[derive(Clone, Debug, PartialEq, Eq)]
pub struct FileChangeEvent {
    /// `"created"`, `"modified"` or `"deleted"`.
    pub event_type: String,
    pub file_path: String,
    pub metadata: Option<FileMetadata>,
}

/// The kind of change that the notifier reports.
#[derive(Clone, Copy, Debug, PartialEq, Eq)]
pub enum ChangeKind {
    Created,
    Modified,
    Removed,
    /// Anything else: access, metadata only, unknown.
    Other,
}

/// Why a directory is not watched, or not unwatched.
#[derive(Clone, Debug, PartialEq, Eq)]
pub enum WatchError {
    /// The path does not exist or is no directory.
    NotADirectory,
    /// The directory is being watched already.
    AlreadyWatching { dir_path: String },
    /// The directory is not being watched.
    NotWatching,
}

/// The directories being watched.
pub struct WatchRegistry {
    dirs: Vec<String>,
}

/// The name under which a kind of change is reported; `None` for a kind
/// that is not reported.
pub open spec fn event_type_of(kind: ChangeKind) -> Option<Seq<char>> {
    match kind {
        ChangeKind::Created => Some("created"@),
        ChangeKind::Modified => Some("modified"@),
        ChangeKind::Removed => Some("deleted"@),
        ChangeKind::Other => None,
    }
}

/// Whether the file at `path` carries display metadata in its name.
pub open spec fn has_metadata(path: Seq<char>, is_file: bool) -> bool {
    is_file && path_file_stem(path) is Some && stem_title(path_file_stem(path)->0) is Some
}

/// The event for one path of one reported change.
///
/// Creation, modification and removal are passed on, anything else is not.
/// A created or modified file carries its display metadata where its name
/// yields any; the event is passed on either way. A removed file carries none.
pub fn file_change_event(kind: ChangeKind, path: &str, is_file: bool) -> (res: Option<
    FileChangeEvent,
>)
    ensures
        res is Some <==> kind != ChangeKind::Other,
        res matches Some(event) ==> {
            &&& Some(event.event_type@) == event_type_of(kind)
            &&& event.file_path@ == path@
            &&& event.metadata is Some <==> kind != ChangeKind::Removed && has_metadata(
                path@,
                is_file,
            )
            &&& event.metadata matches Some(meta) ==> {
                &&& meta.file_name@ == or_empty(path_file_name(path@))
                &&& meta.full_path@ == path@
                &&& Some(meta.title@) == stem_title(path_file_stem(path@)->0)
            }
        },
{
    match kind {
        ChangeKind::Created => Some(
            FileChangeEvent {
                event_type: "created".to_owned(),
                file_path: path.to_owned(),
                metadata: parse_file_metadata(path, is_file),
            },
        ),
        ChangeKind::Modified => Some(
            FileChangeEvent {
                event_type: "modified".to_owned(),
                file_path: path.to_owned(),
                metadata: parse_file_metadata(path, is_file),
            },
        ),
        ChangeKind::Removed => Some(
            FileChangeEvent {
                event_type: "deleted".to_owned(),
                file_path: path.to_owned(),
                metadata: None,
            },
        ),
        ChangeKind::Other => None,
    }
}

/// The message shown for a directory that is not put under or taken out of watch.
pub open spec fn watch_message(error: WatchError) -> Seq<char> {
    match error {
        WatchError::NotADirectory => "Указанный путь не существует или не является директорией"@,
        WatchError::AlreadyWatching { dir_path } => "Директория '"@ + dir_path@
            + "' уже отслеживается."@,
        WatchError::NotWatching => "Watcher для данной директории не найден"@,
    }
}

impl WatchError {
    /// The message shown to the user.
    pub fn message(&self) -> (res: String)
        ensures
            res@ == watch_message(*self),
    {
        match self {
            WatchError::NotADirectory => {
                "Указанный путь не существует или не является директорией".to_owned()
            },
            WatchError::AlreadyWatching { dir_path } => "Директория '".to_owned().concat(
                dir_path.as_str(),
            ).concat("' уже отслеживается."),
            WatchError::NotWatching => "Watcher для данной директории не найден".to_owned(),
        }
    }
}

impl WatchRegistry {
    /// The set of watched directories.
    pub closed spec fn watched(&self) -> Set<Seq<char>> {
        Set::new(|dir: Seq<char>| exists|i: int| 0 <= i < self.dirs@.len() && self.dirs@[i]@ == dir)
    }

    /// No directory is listed twice.
    pub closed spec fn wf(&self) -> bool {
        forall|i: int, j: int|
            0 <= i < j < self.dirs@.len() ==> self.dirs@[i]@ != self.dirs@[j]@
    }

    /// A registry that watches nothing.
    pub fn new() -> (registry: Self)
        ensures
            registry.wf(),
            registry.watched() == Set::<Seq<char>>::empty(),
    {
        let registry = WatchRegistry { dirs: Vec::new() };
        assert(registry.watched() =~= Set::<Seq<char>>::empty());
        registry
    }

    /// The place of `dir_path` in the list, if it is there.
    fn position(&self, dir_path: &str) -> (res: Option<usize>)
        ensures
            res matches Some(i) ==> i < self.dirs@.len() && self.dirs@[i as int]@ == dir_path@,
            res is None ==> !self.watched().contains(dir_path@),
            res is Some ==> self.watched().contains(dir_path@),
    {
        let wanted = dir_path.to_owned();
        let mut i: usize = 0;
        while i < self.dirs.len()
            invariant
                i <= self.dirs@.len(),
                wanted@ == dir_path@,
                forall|j: int| 0 <= j < i ==> self.dirs@[j]@ != dir_path@,
            decreases self.dirs@.len() - i,
        {
            if self.dirs[i] == wanted {
                return Some(i);
            }
            i += 1;
        }
        None
    }

    /// Whether `dir_path` is being watched.
    pub fn is_watching(&self, dir_path: &str) -> (res: bool)
        ensures
            res == self.watched().contains(dir_path@),
    {
        self.position(dir_path).is_some()
    }
}

/// Puts `dir_path` under watch, given what is on disk there.
///
/// - `NotADirectory` exactly when the path does not exist or is no directory;
/// - else `AlreadyWatching` exactly when it is watched already;
/// - else success, and the directory is watched from now on.
/// On an error the registry stays as it was.
pub fn start_watching_directory(
    registry: &mut WatchRegistry,
    dir_path: &str,
    on_disk: bool,
    is_dir: bool,
) -> (res: Result<(), WatchError>)
    requires
        old(registry).wf(),
    ensures
        final(registry).wf(),
        match res {
            Ok(_) => {
                &&& on_disk && is_dir
                &&& !old(registry).watched().contains(dir_path@)
                &&& final(registry).watched() == old(registry).watched().insert(dir_path@)
            },
            Err(WatchError::NotADirectory) => {
                &&& !(on_disk && is_dir)
                &&& final(registry).watched() == old(registry).watched()
            },
            Err(WatchError::AlreadyWatching { dir_path: named }) => {
                &&& on_disk && is_dir
                &&& old(registry).watched().contains(dir_path@)
                &&& named@ == dir_path@
                &&& final(registry).watched() == old(registry).watched()
            },
            Err(WatchError::NotWatching) => false,
        },
{
    if !on_disk || !is_dir {
        return Err(WatchError::NotADirectory);
    }
    if registry.is_watching(dir_path) {
        return Err(WatchError::AlreadyWatching { dir_path: dir_path.to_owned() });
    }
    let added = dir_path.to_owned();
    let ghost before = registry.dirs@;
    registry.dirs.push(added);
    proof {
        assert forall|dir: Seq<char>|
            final(registry).watched().contains(dir) == old(registry).watched().insert(
                dir_path@,
            ).contains(dir) by {
            if dir == dir_path@ {
                assert(registry.dirs@[before.len() as int]@ == dir);
            } else if old(registry).watched().contains(dir) {
                let i = choose|i: int| 0 <= i < before.len() && before[i]@ == dir;
                assert(registry.dirs@[i]@ == dir);
            } else if registry.watched().contains(dir) {
                let i = choose|i: int| 0 <= i < registry.dirs@.len() && registry.dirs@[i]@ == dir;
                assert(before[i]@ == dir);
            }
        }
        assert(registry.watched() =~= old(registry).watched().insert(dir_path@));
    }
    Ok(())
}

/// Takes `dir_path` out of watch: success exactly when it was watched, and
/// then it is watched no more; `NotWatching` otherwise, and nothing changes.
pub fn stop_watching_directory(registry: &mut WatchRegistry, dir_path: &str) -> (res: Result<
    (),
    WatchError,
>)
    requires
        old(registry).wf(),
    ensures
        final(registry).wf(),
        match res {
            Ok(_) => {
                &&& old(registry).watched().contains(dir_path@)
                &&& final(registry).watched() == old(registry).watched().remove(dir_path@)
            },
            Err(WatchError::NotWatching) => {
                &&& !old(registry).watched().contains(dir_path@)
                &&& final(registry).watched() == old(registry).watched()
            },
            Err(_) => false,
        },
{
    match registry.position(dir_path) {
        Some(at) => {
            let ghost before = registry.dirs@;
            registry.dirs.remove(at);
            proof {
                assert(registry.dirs@ =~= before.subrange(0, at as int) + before.subrange(
                    at + 1,
                    before.len() as int,
                ));
                assert forall|dir: Seq<char>|
                    registry.watched().contains(dir) == old(registry).watched().remove(
                        dir_path@,
                    ).contains(dir) by {
                    if registry.watched().contains(dir) {
                        let i = choose|i: int|
                            0 <= i < registry.dirs@.len() && registry.dirs@[i]@ == dir;
                        let k = if i < at {
                            i
                        } else {
                            i + 1
                        };
                        assert(before[k]@ == dir);
                    } else if dir != dir_path@ && old(registry).watched().contains(dir) {
                        let k = choose|k: int| 0 <= k < before.len() && before[k]@ == dir;
                        let i = if k < at {
                            k
                        } else {
                            k - 1
                        };
                        assert(registry.dirs@[i]@ == dir);
                    }
                }
                assert(registry.watched() =~= old(registry).watched().remove(dir_path@));
            }
            Ok(())
        },
        None => Err(WatchError::NotWatching),
    }
}

} // verus!
