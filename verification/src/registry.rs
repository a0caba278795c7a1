//! The watch registry: which directory stands behind which watch handle.

use crate::event::WatchHandle;
use crate::text::{join_path, path_join};
use std::collections::HashMap;
use vstd::prelude::*;

verus! {

/// Why a directory could not be put under watch.
#[derive(Clone, Copy, Debug, PartialEq, Eq, Structural)]
pub enum WatchFailure {
    /// The directory is no longer there.
    Vanished,
    /// The table of watches of the operating system is full.
    TableExhausted,
    /// Anything else.
    Other,
}

/// A directory could not be put under watch.
#[derive(Clone, Debug, PartialEq, Eq)]
pub struct WatchError {
    /// The directory.
    pub path: String,
    /// Why it failed.
    pub failure: WatchFailure,
}

/// A [`WatchError`] as plain values.
pub ghost struct WatchErrorView {
    pub path: Seq<char>,
    pub failure: WatchFailure,
}

impl View for WatchError {
    type V = WatchErrorView;

    open spec fn view(&self) -> WatchErrorView {
        WatchErrorView { path: self.path@, failure: self.failure }
    }
}

/// A record named a watch handle that the registry does not know.
#[derive(Clone, Copy, Debug, PartialEq, Eq, Structural)]
pub struct UnknownWatchError {
    /// The handle of the record.
    pub handle: WatchHandle,
}

/// The directories under watch, each under the handle that the
/// notification subsystem gave for it. A handle has one directory. Entries
/// are added and never taken out.
#[derive(Debug)]
pub struct WatchRegistry {
    dirs: HashMap<i32, String>,
}

impl View for WatchRegistry {
    type V = Map<WatchHandle, Seq<char>>;

    closed spec fn view(&self) -> Map<WatchHandle, Seq<char>> {
        Map::new(
            |handle: WatchHandle| self.dirs@.contains_key(handle.id),
            |handle: WatchHandle| self.dirs@[handle.id]@,
        )
    }
}

/// The directories that `registry` knows.
pub open spec fn known_paths(registry: Map<WatchHandle, Seq<char>>) -> Set<Seq<char>> {
    registry.values()
}

/// The path that a record of `handle` about the entry `name` speaks of.
pub open spec fn resolved(
    registry: Map<WatchHandle, Seq<char>>,
    handle: WatchHandle,
    name: Seq<char>,
) -> Result<Seq<char>, UnknownWatchError> {
    if registry.contains_key(handle) {
        Ok(path_join(registry[handle], name))
    } else {
        Err(UnknownWatchError { handle })
    }
}

impl WatchRegistry {
    /// A registry without entries.
    pub fn new() -> (registry: WatchRegistry)
        ensures
            registry@ == Map::<WatchHandle, Seq<char>>::empty(),
    {
        WatchRegistry { dirs: HashMap::new() }
    }

    /// How many handles are known.
    pub fn len(&self) -> (n: usize)
        ensures
            self@.dom().finite(),
            n == self@.dom().len(),
    {
        proof {
            self.lemma_handles();
        }
        self.dirs.len()
    }

    /// Whether `handle` is known.
    pub fn contains(&self, handle: WatchHandle) -> (known: bool)
        ensures
            known == self@.contains_key(handle),
    {
        self.dirs.contains_key(&handle.id)
    }

    /// The directory under `handle`.
    pub fn directory(&self, handle: WatchHandle) -> (dir: Option<&String>)
        ensures
            dir is Some <==> self@.contains_key(handle),
            dir matches Some(path) ==> path@ == self@[handle],
    {
        self.dirs.get(&handle.id)
    }

    /// Records that `path` is watched under `handle`. If the handle was
    /// known already, its directory is replaced.
    pub fn insert(&mut self, handle: WatchHandle, path: String)
        ensures
            final(self)@ == old(self)@.insert(handle, path@),
    {
        self.dirs.insert(handle.id, path);
    }

    /// Takes note of an attempt to put `path` under watch. A handle is
    /// recorded and given back. A failure leaves the registry as it was
    /// and comes back with the path.
    pub fn register(&mut self, path: String, attempt: Result<WatchHandle, WatchFailure>) -> (done:
        Result<WatchHandle, WatchError>)
        ensures
            match attempt {
                Ok(handle) => done == Ok::<WatchHandle, WatchError>(handle) && final(self)@ == old(
                    self,
                )@.insert(handle, path@),
                Err(failure) => {
                    &&& done matches Err(error)
                    &&& error@ == (WatchErrorView { path: path@, failure })
                    &&& final(self)@ == old(self)@
                },
            },
    {
        match attempt {
            Ok(handle) => {
                self.insert(handle, path);
                Ok(handle)
            },
            Err(failure) => Err(WatchError { path, failure }),
        }
    }

    /// The path of the entry `name` of the directory that is watched under
    /// `handle`.
    pub fn resolve(&self, handle: WatchHandle, name: &str) -> (path: Result<
        String,
        UnknownWatchError,
    >)
        ensures
            match resolved(self@, handle, name@) {
                Ok(expected) => path matches Ok(found) && found@ == expected,
                Err(error) => path == Err::<String, UnknownWatchError>(error),
            },
    {
        match self.dirs.get(&handle.id) {
            Some(dir) => Ok(join_path(dir.as_str(), name)),
            None => Err(UnknownWatchError { handle }),
        }
    }

    /// A registry knows finitely many handles.
    pub proof fn lemma_finite(&self)
        ensures
            self@.dom().finite(),
    {
        self.lemma_handles();
    }

    /// The handles of the view are the keys of the table, one for one.
    proof fn lemma_handles(&self)
        ensures
            self@.dom().finite(),
            self@.dom().len() == self.dirs@.dom().len(),
    {
        let keys = self.dirs@.dom();
        let handles = self@.dom();
        let wrap = |id: i32| WatchHandle { id };
        assert(keys.map(wrap) =~= handles);
        vstd::set_lib::lemma_map_size(keys, handles, wrap);
        keys.lemma_map_finite(wrap);
    }
}

/// The registry only grows: after a directory is recorded, every handle
/// that was known is still known. Every directory that was known is still
/// known too, provided the handle is new or stood for the same directory
/// before.
pub proof fn lemma_registry_grows(
    registry: Map<WatchHandle, Seq<char>>,
    handle: WatchHandle,
    path: Seq<char>,
)
    ensures
        registry.dom().subset_of(registry.insert(handle, path).dom()),
        known_paths(registry.insert(handle, path)).contains(path),
        !registry.contains_key(handle) || registry[handle] == path ==> known_paths(
            registry,
        ).subset_of(known_paths(registry.insert(handle, path))),
{
    let grown = registry.insert(handle, path);
    assert(grown.contains_key(handle) && grown[handle] == path);
    if !registry.contains_key(handle) || registry[handle] == path {
        assert forall|p: Seq<char>| known_paths(registry).contains(p) implies known_paths(
            grown,
        ).contains(p) by {
            let h = choose|h: WatchHandle| registry.contains_key(h) && registry[h] == p;
            assert(grown.contains_key(h) && grown[h] == p);
        }
    }
}

} // verus!
