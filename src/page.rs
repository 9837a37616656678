use vstd::prelude::*;

use crate::album::Album;
use crate::card::{shows_album, renders_card, AlbumComponent, CardView};
use crate::request::{album_request, is_album_request, BackendConfig, FetchRequest};

verus! {

/// Heading of the album page.
pub const PAGE_TITLE: &'static str = "Albums";

/// Shown when the backend could not be reached.
pub const NETWORK_MESSAGE: &'static str = "Could not reach the album library.";

/// Shown when the backend answered with a status outside 200..=299.
pub const STATUS_MESSAGE: &'static str = "The album library refused the request.";

/// Shown when the backend's answer is not a list of albums.
pub const DECODE_MESSAGE: &'static str = "The album library sent an unreadable answer.";

/// Why a fetch of the album list failed.
#[derive(Clone, Copy, Debug, PartialEq, Eq, Structural)]
pub enum FetchError {
    /// No response: the connection failed or timed out.
    Network,
    /// A response whose status is not in 200..=299.
    HttpStatus(u16),
    /// A successful response whose body is not a JSON list of albums.
    Decode,
}

pub open spec fn error_message(e: FetchError) -> Seq<char> {
    match e {
        FetchError::Network => NETWORK_MESSAGE@,
        FetchError::HttpStatus(_) => STATUS_MESSAGE@,
        FetchError::Decode => DECODE_MESSAGE@,
    }
}

impl FetchError {
    /// The message shown to the user for this error.
    pub fn message(&self) -> (r: String)
        ensures
            r@ == error_message(*self),
    {
        match self {
            FetchError::Network => String::from_str(NETWORK_MESSAGE),
            FetchError::HttpStatus(_) => String::from_str(STATUS_MESSAGE),
            FetchError::Decode => String::from_str(DECODE_MESSAGE),
        }
    }
}

/// What came back from the album request. `albums` is the decoded body,
/// `None` where the body is not a JSON list of albums.
pub enum FetchOutcome {
    NetworkFailed,
    Received { status: u16, albums: Option<Vec<Album>> },
}

/// A state transition posted to the page when a fetch completes.
pub enum AlbumMsg {
    SetAlbums(Vec<Album>),
    FetchFailed(FetchError),
}

pub open spec fn is_success_status(status: u16) -> bool {
    200 <= status <= 299
}

/// The message that a fetch outcome posts.
pub open spec fn msg_of(outcome: FetchOutcome) -> AlbumMsg {
    match outcome {
        FetchOutcome::NetworkFailed => AlbumMsg::FetchFailed(FetchError::Network),
        FetchOutcome::Received { status, albums } => {
            if !is_success_status(status) {
                AlbumMsg::FetchFailed(FetchError::HttpStatus(status))
            } else {
                match albums {
                    Some(list) => AlbumMsg::SetAlbums(list),
                    None => AlbumMsg::FetchFailed(FetchError::Decode),
                }
            }
        },
    }
}

/// Whether a response with this status is a success, so that its body is
/// worth decoding.
pub fn status_is_success(status: u16) -> (r: bool)
    ensures
        r == is_success_status(status),
{
    200 <= status && status <= 299
}

/// Maps the outcome of the album request to the message it posts: a
/// network failure, a status outside 200..=299 and an undecodable body each
/// become a failure; a decoded list replaces the page's albums.
pub fn msg_of_outcome(outcome: FetchOutcome) -> (r: AlbumMsg)
    ensures
        r == msg_of(outcome),
{
    match outcome {
        FetchOutcome::NetworkFailed => AlbumMsg::FetchFailed(FetchError::Network),
        FetchOutcome::Received { status, albums } => {
            if !status_is_success(status) {
                AlbumMsg::FetchFailed(FetchError::HttpStatus(status))
            } else {
                match albums {
                    Some(list) => AlbumMsg::SetAlbums(list),
                    None => AlbumMsg::FetchFailed(FetchError::Decode),
                }
            }
        },
    }
}

/// `cards` show `albums`, one card per album, in order.
pub open spec fn cards_show(cards: Seq<AlbumComponent>, albums: Seq<Album>) -> bool {
    &&& cards.len() == albums.len()
    &&& forall|i: int| 0 <= i < albums.len() ==> shows_album(#[trigger] cards[i], albums[i])
}

/// The cards of `albums`, one per album, in order.
pub fn cards_of(albums: &Vec<Album>) -> (r: Vec<AlbumComponent>)
    ensures
        cards_show(r@, albums@),
{
    let mut cards: Vec<AlbumComponent> = Vec::new();
    let mut i: usize = 0;
    while i < albums.len()
        invariant
            i <= albums.len(),
            cards_show(cards@, albums@.subrange(0, i as int)),
        decreases albums.len() - i,
    {
        cards.push(AlbumComponent::from_album(&albums[i]));
        i = i + 1;
    }
    assert(albums@.subrange(0, i as int) =~= albums@);
    cards
}

/// Where the page stands in its fetch cycle.
pub enum PageState {
    Loading,
    Loaded(Vec<AlbumComponent>),
    Failed(FetchError),
}

/// `s` is the state that `msg` leaves the page in: the whole list of cards
/// replaced by the cards of the new albums, or the failure.
pub open spec fn state_after(msg: AlbumMsg, s: PageState) -> bool {
    match msg {
        AlbumMsg::SetAlbums(albums) => s is Loaded && cards_show(s->Loaded_0@, albums@),
        AlbumMsg::FetchFailed(e) => s == PageState::Failed(e),
    }
}

/// What the page renders below its title.
pub enum PageBody {
    /// The fetch has not completed yet.
    Loading,
    /// One card per album, in list order. An empty list renders an empty
    /// grid and no message.
    Cards(Vec<CardView>),
    /// The message of the failure.
    Error(String),
}

/// The rendering of the page: its title and its body.
pub struct PageView {
    pub title: String,
    pub body: PageBody,
}

/// `v` is the rendering of a page in state `s`.
pub open spec fn renders_page(v: PageView, s: PageState) -> bool {
    &&& v.title@ == PAGE_TITLE@
    &&& match s {
        PageState::Loading => v.body is Loading,
        PageState::Loaded(cards) => {
            &&& v.body is Cards
            &&& v.body->Cards_0.len() == cards.len()
            &&& forall|i: int|
                0 <= i < cards.len() ==> renders_card(#[trigger] v.body->Cards_0@[i], cards@[i])
        },
        PageState::Failed(e) => v.body is Error && v.body->Error_0@ == error_message(e),
    }
}

/// The album page: its state, the fetch cycle it is in, and the request of
/// that cycle until it is handed out to be sent.
pub struct AlbumPageComponent {
    pub config: BackendConfig,
    pub state: PageState,
    /// Counts mounts and unmounts; a result tagged with another cycle is stale.
    pub cycle: u64,
    /// The request of the current cycle, present until it is taken.
    pub pending: Option<FetchRequest>,
}

/// `p` has just been mounted in fetch cycle `cycle`: it is loading, and its
/// one request, not yet taken, is the album request of that cycle.
pub open spec fn freshly_mounted(p: AlbumPageComponent, config: BackendConfig, cycle: u64) -> bool {
    &&& p.config == config
    &&& p.state is Loading
    &&& p.cycle == cycle
    &&& p.pending is Some
    &&& is_album_request(p.pending->Some_0, config, cycle)
}

/// The cycle after `cycle`.
pub open spec fn next_cycle(cycle: u64) -> u64 {
    if cycle == u64::MAX { 0 } else { (cycle + 1) as u64 }
}

/// `after` is `before` once the result `msg` of fetch cycle `cycle` has been
/// received, and `accepted` says whether it was applied: it is applied only
/// if it belongs to the current cycle while the page is loading.
pub open spec fn receive_post(
    before: AlbumPageComponent,
    cycle: u64,
    msg: AlbumMsg,
    after: AlbumPageComponent,
    accepted: bool,
) -> bool {
    &&& accepted == (cycle == before.cycle && before.state is Loading)
    &&& after.config == before.config
    &&& after.cycle == before.cycle
    &&& after.pending == before.pending
    &&& if accepted { state_after(msg, after.state) } else { after.state == before.state }
}

/// `after` is `before` once its pending request `r` has been handed out.
pub open spec fn take_post(before: AlbumPageComponent, r: Option<FetchRequest>, after: AlbumPageComponent) -> bool {
    &&& r == before.pending
    &&& after.pending is None
    &&& after.config == before.config
    &&& after.state == before.state
    &&& after.cycle == before.cycle
}

impl AlbumPageComponent {
    /// Mounts the page: loading, in fetch cycle 0, with the album request of
    /// `config` waiting to be sent.
    pub fn create(config: BackendConfig) -> (r: AlbumPageComponent)
        ensures
            freshly_mounted(r, config, 0),
    {
        let request = album_request(&config, 0);
        AlbumPageComponent { config, state: PageState::Loading, cycle: 0, pending: Some(request) }
    }

    /// Hands out the request of the current cycle, once: afterwards there is
    /// none until the page is mounted again.
    pub fn take_request(&mut self) -> (r: Option<FetchRequest>)
        ensures
            take_post(*old(self), r, *final(self)),
    {
        self.pending.take()
    }

    /// Applies a completed fetch: the albums replace the whole list of
    /// cards, or the page shows the failure. Always asks for a re-render.
    pub fn update(&mut self, msg: AlbumMsg) -> (r: bool)
        ensures
            r,
            state_after(msg, final(self).state),
            final(self).config == old(self).config,
            final(self).cycle == old(self).cycle,
            final(self).pending == old(self).pending,
    {
        match msg {
            AlbumMsg::SetAlbums(albums) => {
                self.state = PageState::Loaded(cards_of(&albums));
            },
            AlbumMsg::FetchFailed(e) => {
                self.state = PageState::Failed(e);
            },
        }
        true
    }

    /// Applies the result `msg` of fetch cycle `cycle` if it is the result
    /// the page is waiting for; a stale or second result changes nothing.
    /// Returns whether it was applied, which is whether to re-render.
    pub fn receive(&mut self, cycle: u64, msg: AlbumMsg) -> (r: bool)
        ensures
            receive_post(*old(self), cycle, msg, *final(self), r),
    {
        if cycle == self.cycle && matches!(self.state, PageState::Loading) {
            self.update(msg)
        } else {
            false
        }
    }

    /// Mounts the page again: all earlier state is dropped, a new fetch
    /// cycle begins, and exactly one new request waits to be sent.
    pub fn remount(&mut self)
        ensures
            freshly_mounted(*final(self), old(self).config, next_cycle(old(self).cycle)),
    {
        let cycle = self.cycle.wrapping_add(1);
        self.pending = Some(album_request(&self.config, cycle));
        self.state = PageState::Loading;
        self.cycle = cycle;
    }

    /// Unmounts the page: the request not yet sent is dropped and the fetch
    /// in flight, if any, is cancelled: its result will be stale.
    pub fn unmount(&mut self)
        ensures
            final(self).pending is None,
            final(self).cycle == next_cycle(old(self).cycle),
            final(self).config == old(self).config,
            final(self).state == old(self).state,
    {
        self.pending = None;
        self.cycle = self.cycle.wrapping_add(1);
    }

    /// Renders the page: the title, then the cards in list order, the
    /// failure message, or nothing while loading.
    pub fn view(&self) -> (r: PageView)
        ensures
            renders_page(r, self.state),
    {
        let body = match &self.state {
            PageState::Loading => PageBody::Loading,
            PageState::Loaded(cards) => {
                let mut views: Vec<CardView> = Vec::new();
                let mut i: usize = 0;
                while i < cards.len()
                    invariant
                        i <= cards.len(),
                        views.len() == i,
                        forall|j: int| 0 <= j < i ==> renders_card(#[trigger] views@[j], cards@[j]),
                    decreases cards.len() - i,
                {
                    views.push(cards[i].view());
                    i = i + 1;
                }
                PageBody::Cards(views)
            },
            PageState::Failed(e) => PageBody::Error(e.message()),
        };
        PageView { title: String::from_str(PAGE_TITLE), body }
    }
}

} // verus!
