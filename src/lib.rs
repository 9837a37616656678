//! Album gallery: the fetch-then-render logic of a page that lists the
//! albums of a media library as cards.
//!
//! The page is an explicit state machine. Mounting it yields one request
//! description; the outcome of that request becomes a message; the message
//! moves the page from `Loading` to `Loaded` or `Failed`; and a pure render
//! function turns the state into a view model that a UI layer draws.
pub mod album;
pub mod card;
pub mod request;
pub mod page;
pub mod laws;
