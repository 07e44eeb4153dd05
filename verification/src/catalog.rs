use vstd::prelude::*;

verus! {

/// Data shapes exchanged with the catalog and settings store. The store
/// itself — its database, queries and file placement — is a collaborator
/// outside the engine; these are the records that cross that boundary.
///
/// Registering an artist by name; names are deduplicated by the store.
#[derive(Debug, Clone)]
pub struct RegisterArtistArgs {
    pub name: String,
}

/// Registering an album with its credited artists.
#[derive(Debug, Clone)]
pub struct RegisterAlbumArgs {
    pub title: String,
    pub year: Option<i32>,
    pub artist_ids: Vec<i64>,
}

/// A playlist row shown to the host: identity, name, and how many tracks it
/// holds.
#[derive(Debug, Clone)]
pub struct Playlist {
    pub id: i64,
    pub name: String,
    pub track_count: i64,
}

/// The library's storage settings: an optional user-chosen root, and the
/// managed directory used instead when `use_managed_dir` is set.
#[derive(Debug, Clone)]
pub struct Settings {
    pub library_root: Option<String>,
    pub use_managed_dir: bool,
    pub managed_root: String,
}

impl Settings {
    /// The root the library actually uses: the managed directory when the
    /// managed mode is on, else the user's chosen root if any.
    pub fn effective_root(&self) -> (r: Option<&String>)
        ensures
            self.use_managed_dir ==> (r matches Some(p) && p@ == self.managed_root@),
            !self.use_managed_dir ==> (match self.library_root {
                Option::Some(lr) => r matches Some(p) && p@ == lr@,
                Option::None => r is None,
            }),
    {
        if self.use_managed_dir {
            Some(&self.managed_root)
        } else {
            self.library_root.as_ref()
        }
    }
}

} // verus!
