use vstd::prelude::*;

use crate::album::Album;

verus! {

/// Cover shown by a card that was given no cover.
pub const PLACEHOLDER_COVER: &'static str = "https://via.placeholder.com/200";

/// Title shown by a card that was given no title.
pub const PLACEHOLDER_TITLE: &'static str = "Album Title";

/// Artist shown by a card that was given no artist.
pub const PLACEHOLDER_ARTIST: &'static str = "Artist Name";

/// Alternative text of every card's cover image.
pub const COVER_ALT: &'static str = "Album Cover";

/// The properties of one album card: what it shows, and nothing else.
pub struct AlbumComponent {
    pub cover: String,
    pub title: String,
    pub artist: String,
}

/// `card` shows exactly the cover, title and artist of `album`.
pub open spec fn shows_album(card: AlbumComponent, album: Album) -> bool {
    &&& card.cover@ == album.cover@
    &&& card.title@ == album.title@
    &&& card.artist@ == album.album_artist@
}

/// `card` shows the placeholder cover, title and artist.
pub open spec fn is_placeholder(card: AlbumComponent) -> bool {
    &&& card.cover@ == PLACEHOLDER_COVER@
    &&& card.title@ == PLACEHOLDER_TITLE@
    &&& card.artist@ == PLACEHOLDER_ARTIST@
}

/// What a card renders: an image with its alternative text, then two lines
/// of text, the title above the artist.
pub struct CardView {
    pub image_src: String,
    pub image_alt: String,
    pub title: String,
    pub artist: String,
}

/// `v` is the rendering of `card`.
pub open spec fn renders_card(v: CardView, card: AlbumComponent) -> bool {
    &&& v.image_src@ == card.cover@
    &&& v.image_alt@ == COVER_ALT@
    &&& v.title@ == card.title@
    &&& v.artist@ == card.artist@
}

impl AlbumComponent {
    /// A card with no explicit properties: the placeholder cover, title and
    /// artist. These are display defaults only, never live data.
    pub fn default() -> (r: AlbumComponent)
        ensures
            is_placeholder(r),
    {
        AlbumComponent {
            cover: String::from_str(PLACEHOLDER_COVER),
            title: String::from_str(PLACEHOLDER_TITLE),
            artist: String::from_str(PLACEHOLDER_ARTIST),
        }
    }

    /// The card of one album: its cover, its title and its artist.
    pub fn from_album(album: &Album) -> (r: AlbumComponent)
        ensures
            shows_album(r, *album),
    {
        AlbumComponent {
            cover: album.cover.clone(),
            title: album.title.clone(),
            artist: album.album_artist.clone(),
        }
    }

    /// Renders the card. A pure function of its properties.
    pub fn view(&self) -> (r: CardView)
        ensures
            renders_card(r, *self),
    {
        CardView {
            image_src: self.cover.clone(),
            image_alt: String::from_str(COVER_ALT),
            title: self.title.clone(),
            artist: self.artist.clone(),
        }
    }
}

} // verus!
