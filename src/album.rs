use vstd::prelude::*;

verus! {

/// An album record as the backend store returns it.
pub struct Album {
    /// URL of the cover image.
    pub cover: String,
    pub title: String,
    pub album_artist: String,
}

impl Album {
    pub fn new(cover: &str, title: &str, album_artist: &str) -> (r: Album)
        ensures
            r.cover@ == cover@,
            r.title@ == title@,
            r.album_artist@ == album_artist@,
    {
        Album {
            cover: String::from_str(cover),
            title: String::from_str(title),
            album_artist: String::from_str(album_artist),
        }
    }
}

} // verus!
