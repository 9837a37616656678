use echochamber::album::Album;
use echochamber::card::{AlbumComponent, COVER_ALT, PLACEHOLDER_ARTIST, PLACEHOLDER_COVER, PLACEHOLDER_TITLE};
use echochamber::page::{
    cards_of, msg_of_outcome, status_is_success, AlbumMsg, AlbumPageComponent, FetchError,
    FetchOutcome, PageBody, PageState, DECODE_MESSAGE, NETWORK_MESSAGE, PAGE_TITLE,
    STATUS_MESSAGE,
};
use echochamber::request::{album_request, BackendConfig, CredentialsMode};

fn sample_albums() -> Vec<Album> {
    vec![
        Album::new("https://img.example/a.png", "Blue Train", "John Coltrane"),
        Album::new("https://img.example/b.png", "Kind of Blue", "Miles Davis"),
        Album::new("https://img.example/c.png", "Mingus Ah Um", "Charles Mingus"),
    ]
}

fn mounted_page() -> AlbumPageComponent {
    let mut page = AlbumPageComponent::create(BackendConfig::local());
    let request = page.take_request();
    assert!(request.is_some());
    page
}

fn error_text(page: &AlbumPageComponent) -> String {
    match page.view().body {
        PageBody::Error(m) => m,
        _ => panic!("the page shows no error"),
    }
}

#[test]
fn success_response_renders_one_card_per_album_in_order() {
    let mut page = mounted_page();
    let outcome = FetchOutcome::Received { status: 200, albums: Some(sample_albums()) };
    assert!(page.receive(0, msg_of_outcome(outcome)));
    let view = page.view();
    assert_eq!(view.title, PAGE_TITLE);
    match view.body {
        PageBody::Cards(cards) => {
            let albums = sample_albums();
            assert_eq!(cards.len(), 3);
            for (card, album) in cards.iter().zip(albums.iter()) {
                assert_eq!(card.image_src, album.cover);
                assert_eq!(card.image_alt, COVER_ALT);
                assert_eq!(card.title, album.title);
                assert_eq!(card.artist, album.album_artist);
            }
            assert_eq!(cards[1].title, "Kind of Blue");
            assert_eq!(cards[2].artist, "Charles Mingus");
        }
        _ => panic!("the page shows no cards"),
    }
}

#[test]
fn empty_list_renders_no_cards() {
    let mut page = mounted_page();
    let outcome = FetchOutcome::Received { status: 200, albums: Some(Vec::new()) };
    assert!(page.receive(0, msg_of_outcome(outcome)));
    match page.view().body {
        PageBody::Cards(cards) => assert!(cards.is_empty()),
        _ => panic!("an empty list must render an empty grid"),
    }
}

#[test]
fn non_success_status_fails_with_error_message() {
    for status in [199u16, 300, 404, 500] {
        let mut page = mounted_page();
        let outcome = FetchOutcome::Received { status, albums: Some(sample_albums()) };
        assert!(page.receive(0, msg_of_outcome(outcome)));
        assert!(matches!(page.state, PageState::Failed(FetchError::HttpStatus(s)) if s == status));
        assert_eq!(error_text(&page), STATUS_MESSAGE);
    }
}

#[test]
fn malformed_body_fails_with_decode_error() {
    let mut page = mounted_page();
    let outcome = FetchOutcome::Received { status: 200, albums: None };
    assert!(page.receive(0, msg_of_outcome(outcome)));
    assert!(matches!(page.state, PageState::Failed(FetchError::Decode)));
    assert_eq!(error_text(&page), DECODE_MESSAGE);
}

#[test]
fn network_failure_fails_with_network_error() {
    let mut page = mounted_page();
    assert!(page.receive(0, msg_of_outcome(FetchOutcome::NetworkFailed)));
    assert!(matches!(page.state, PageState::Failed(FetchError::Network)));
    assert_eq!(error_text(&page), NETWORK_MESSAGE);
}

#[test]
fn default_card_shows_placeholders() {
    let card = AlbumComponent::default();
    assert_eq!(card.cover, "https://via.placeholder.com/200");
    assert_eq!(card.title, "Album Title");
    assert_eq!(card.artist, "Artist Name");
    let view = card.view();
    assert_eq!(view.image_src, PLACEHOLDER_COVER);
    assert_eq!(view.title, PLACEHOLDER_TITLE);
    assert_eq!(view.artist, PLACEHOLDER_ARTIST);
    assert_eq!(view.image_alt, "Album Cover");
}

#[test]
fn remount_issues_one_request_and_drops_prior_state() {
    let mut page = mounted_page();
    let outcome = FetchOutcome::Received { status: 200, albums: Some(sample_albums()) };
    assert!(page.receive(0, msg_of_outcome(outcome)));
    assert!(page.take_request().is_none());

    page.remount();
    assert!(matches!(page.state, PageState::Loading));
    assert_eq!(page.cycle, 1);
    let request = page.take_request().expect("one request after a remount");
    assert_eq!(request.cycle, 1);
    assert!(page.take_request().is_none());

    let stale = FetchOutcome::Received { status: 200, albums: Some(sample_albums()) };
    assert!(!page.receive(0, msg_of_outcome(stale)));
    assert!(matches!(page.state, PageState::Loading));

    let fresh = vec![Album::new("x", "Only", "One")];
    let outcome = FetchOutcome::Received { status: 200, albums: Some(fresh) };
    assert!(page.receive(1, msg_of_outcome(outcome)));
    match &page.state {
        PageState::Loaded(cards) => {
            assert_eq!(cards.len(), 1);
            assert_eq!(cards[0].title, "Only");
        }
        _ => panic!("the new result must be applied"),
    }
}

#[test]
fn second_result_of_a_cycle_is_ignored() {
    let mut page = mounted_page();
    assert!(page.receive(0, msg_of_outcome(FetchOutcome::NetworkFailed)));
    let late = FetchOutcome::Received { status: 200, albums: Some(sample_albums()) };
    assert!(!page.receive(0, msg_of_outcome(late)));
    assert!(matches!(page.state, PageState::Failed(FetchError::Network)));
}

#[test]
fn result_after_unmount_is_ignored() {
    let mut page = AlbumPageComponent::create(BackendConfig::local());
    page.unmount();
    assert!(page.take_request().is_none());
    assert_eq!(page.cycle, 1);
    let outcome = FetchOutcome::Received { status: 200, albums: Some(sample_albums()) };
    assert!(!page.receive(0, msg_of_outcome(outcome)));
    assert!(matches!(page.state, PageState::Loading));
}

#[test]
fn album_request_targets_configured_backend() {
    let config = BackendConfig::new("https://music.example:9000", "library", "main", CredentialsMode::Include);
    let request = album_request(&config, 7);
    assert_eq!(request.cycle, 7);
    assert_eq!(request.url, "https://music.example:9000/key/albums");
    assert_eq!(request.credentials, CredentialsMode::Include);
    let headers: Vec<(String, String)> =
        request.headers.iter().map(|h| (h.name.clone(), h.value.clone())).collect();
    assert_eq!(
        headers,
        vec![
            ("Accept".to_string(), "application/json".to_string()),
            ("NS".to_string(), "library".to_string()),
            ("DB".to_string(), "main".to_string()),
        ]
    );
}

#[test]
fn mount_request_uses_local_backend() {
    let mut page = AlbumPageComponent::create(BackendConfig::local());
    assert!(matches!(page.state, PageState::Loading));
    let request = page.take_request().expect("a request on mount");
    assert_eq!(request.cycle, 0);
    assert_eq!(request.url, "http://127.0.0.1:8000/key/albums");
    assert_eq!(request.credentials, CredentialsMode::SameOrigin);
    assert_eq!(request.headers[1].value, "echochamber");
    assert_eq!(request.headers[2].value, "echochamber");
}

#[test]
fn loading_page_renders_title_and_no_cards() {
    let page = AlbumPageComponent::create(BackendConfig::local());
    let view = page.view();
    assert_eq!(view.title, "Albums");
    assert!(matches!(view.body, PageBody::Loading));
}

#[test]
fn success_status_range() {
    assert!(!status_is_success(199));
    assert!(status_is_success(200));
    assert!(status_is_success(204));
    assert!(status_is_success(299));
    assert!(!status_is_success(300));
    assert!(!status_is_success(0));
}

#[test]
fn status_decides_before_body() {
    let outcome = FetchOutcome::Received { status: 503, albums: None };
    assert!(matches!(msg_of_outcome(outcome), AlbumMsg::FetchFailed(FetchError::HttpStatus(503))));
}

#[test]
fn update_replaces_whole_list() {
    let mut page = AlbumPageComponent::create(BackendConfig::local());
    assert!(page.update(AlbumMsg::SetAlbums(sample_albums())));
    assert!(page.update(AlbumMsg::SetAlbums(vec![Album::new("c", "t", "a")])));
    match &page.state {
        PageState::Loaded(cards) => {
            assert_eq!(cards.len(), 1);
            assert_eq!(cards[0].cover, "c");
            assert_eq!(cards[0].artist, "a");
        }
        _ => panic!("the list must be loaded"),
    }
}

#[test]
fn cards_of_projects_album_artist() {
    let cards = cards_of(&sample_albums());
    assert_eq!(cards.len(), 3);
    assert_eq!(cards[0].cover, "https://img.example/a.png");
    assert_eq!(cards[0].title, "Blue Train");
    assert_eq!(cards[0].artist, "John Coltrane");
}

#[test]
fn error_messages_per_kind() {
    assert_eq!(FetchError::Network.message(), NETWORK_MESSAGE);
    assert_eq!(FetchError::HttpStatus(418).message(), STATUS_MESSAGE);
    assert_eq!(FetchError::Decode.message(), DECODE_MESSAGE);
}
