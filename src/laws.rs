//! Laws that relate the page's functions to one another, stated over the
//! spec functions that their own contracts use.
use vstd::prelude::*;

use crate::album::Album;
use crate::page::{
    error_message, freshly_mounted, is_success_status, msg_of, next_cycle, receive_post,
    renders_page, state_after, take_post, AlbumMsg, AlbumPageComponent, FetchError, FetchOutcome,
    PageState, PageView,
};
use crate::request::{is_album_request, FetchRequest};

verus! {

/// A successful response that decodes to a list of albums renders exactly
/// one card per album, in the same order, each with that album's cover,
/// title and artist.
pub proof fn success_renders_every_album(
    status: u16,
    albums: Vec<Album>,
    state: PageState,
    page: PageView,
)
    requires
        is_success_status(status),
        state_after(
            msg_of(FetchOutcome::Received { status, albums: Some(albums) }),
            state,
        ),
        renders_page(page, state),
    ensures
        state is Loaded,
        page.body is Cards,
        page.body->Cards_0.len() == albums.len(),
        forall|i: int|
            0 <= i < albums.len() ==> {
                &&& (#[trigger] page.body->Cards_0@[i]).image_src@ == albums@[i].cover@
                &&& page.body->Cards_0@[i].title@ == albums@[i].title@
                &&& page.body->Cards_0@[i].artist@ == albums@[i].album_artist@
            },
{
    let cards = state->Loaded_0;
    assert forall|i: int| 0 <= i < albums.len() implies {
        &&& (#[trigger] page.body->Cards_0@[i]).image_src@ == albums@[i].cover@
        &&& page.body->Cards_0@[i].title@ == albums@[i].title@
        &&& page.body->Cards_0@[i].artist@ == albums@[i].album_artist@
    } by {
        assert(crate::card::shows_album(cards@[i], albums@[i]));
        assert(crate::card::renders_card(page.body->Cards_0@[i], cards@[i]));
    }
}

/// A response whose status is outside 200..=299 puts the page in the
/// failed state, whatever its body, and the page shows an error message.
pub proof fn failed_status_shows_error(
    status: u16,
    albums: Option<Vec<Album>>,
    state: PageState,
    page: PageView,
)
    requires
        !is_success_status(status),
        state_after(msg_of(FetchOutcome::Received { status, albums }), state),
        renders_page(page, state),
    ensures
        state == PageState::Failed(FetchError::HttpStatus(status)),
        page.body is Error,
        page.body->Error_0@ == error_message(FetchError::HttpStatus(status)),
{
}

/// A successful response whose body does not decode to a list of albums
/// puts the page in the failed state, and the page shows an error message.
pub proof fn undecodable_body_shows_error(status: u16, state: PageState, page: PageView)
    requires
        is_success_status(status),
        state_after(msg_of(FetchOutcome::Received { status, albums: None }), state),
        renders_page(page, state),
    ensures
        state == PageState::Failed(FetchError::Decode),
        page.body is Error,
        page.body->Error_0@ == error_message(FetchError::Decode),
{
}

/// Mounting the page again replaces all earlier state: the page is loading,
/// it holds exactly one request, for the new cycle, which is handed out once
/// and then no more, and a result of the earlier cycle is not applied.
pub proof fn remount_starts_afresh(
    before: AlbumPageComponent,
    mounted: AlbumPageComponent,
    first: Option<FetchRequest>,
    taken: AlbumPageComponent,
    second: Option<FetchRequest>,
    again: AlbumPageComponent,
    stale: AlbumMsg,
    accepted: bool,
    after_stale: AlbumPageComponent,
)
    requires
        freshly_mounted(mounted, before.config, next_cycle(before.cycle)),
        take_post(mounted, first, taken),
        take_post(taken, second, again),
        receive_post(again, before.cycle, stale, after_stale, accepted),
    ensures
        mounted.state is Loading,
        first is Some,
        is_album_request(first->Some_0, before.config, mounted.cycle),
        mounted.cycle != before.cycle,
        second is None,
        !accepted,
        after_stale.state is Loading,
{
}

} // verus!
