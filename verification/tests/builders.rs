use nostr_articles::deletion::BuildError;
use nostr_articles::deletion::DeletionRequestBuilder;
use nostr_articles::listing::ListingPresenter;
use nostr_articles::matcher::EventRecord;
use nostr_articles::tags::build_article_tags;
use nostr_articles::tags::ArticleMeta;
use nostr_articles::tags::Coordinate;
use nostr_articles::tags::NoteTag;
use nostr_articles::tags::IMAGE_DIMENSION;
use nostr_articles::tags::LONG_FORM_KIND;

fn coordinate() -> Coordinate {
    Coordinate {
        kind: LONG_FORM_KIND,
        public_key: "npub-author".to_string(),
        identifier: "my-article".to_string(),
    }
}

fn record(id: &str, relay: &str) -> EventRecord {
    EventRecord {
        id: id.to_string(),
        tags: vec!["d my-article".to_string(), "title My Article".to_string()],
        relay: relay.to_string(),
    }
}

#[test]
fn article_tags_with_every_option_in_order() {
    let meta = ArticleMeta {
        identifier: "my-article".to_string(),
        title: Some("My Article".to_string()),
        summary: Some("a summary".to_string()),
        image_url: Some("https://example.com/a.png".to_string()),
        published_at: Some(1_700_000_000),
    };
    let tags = build_article_tags(meta, &"npub-author".to_string(), 1_800_000_000);
    assert_eq!(
        tags,
        vec![
            NoteTag::Identifier("my-article".to_string()),
            NoteTag::Title("My Article".to_string()),
            NoteTag::Hashtag("a summary".to_string()),
            NoteTag::Image {
                url: "https://example.com/a.png".to_string(),
                width: IMAGE_DIMENSION,
                height: IMAGE_DIMENSION,
            },
            NoteTag::PublishedAt(1_700_000_000),
            NoteTag::Coordinate(coordinate()),
        ]
    );
}

#[test]
fn article_tags_without_options_use_the_current_time() {
    let meta = ArticleMeta {
        identifier: "my-article".to_string(),
        title: None,
        summary: None,
        image_url: None,
        published_at: None,
    };
    let tags = build_article_tags(meta, &"npub-author".to_string(), 1_800_000_000);
    assert_eq!(
        tags,
        vec![
            NoteTag::Identifier("my-article".to_string()),
            NoteTag::PublishedAt(1_800_000_000),
            NoteTag::Coordinate(coordinate()),
        ]
    );
}

#[test]
fn deletion_request_references_every_matched_event_in_order() {
    let matched = vec![record("E1", "wss://r1"), record("E2", "wss://r2")];
    let request = DeletionRequestBuilder::build(coordinate(), &matched).unwrap();
    assert_eq!(request.reason, "Deleted by user request");
    assert_eq!(
        request.tags,
        vec![
            NoteTag::Coordinate(coordinate()),
            NoteTag::Kind(LONG_FORM_KIND),
            NoteTag::EventRef("E1".to_string()),
            NoteTag::EventRef("E2".to_string()),
        ]
    );
}

#[test]
fn deletion_request_needs_at_least_one_match() {
    let result = DeletionRequestBuilder::build(coordinate(), &Vec::new());
    assert_eq!(result.unwrap_err(), BuildError::NoMatches);
}

#[test]
fn listing_renders_one_line_per_arrival_in_order() {
    let matched = vec![
        EventRecord {
            id: "E1".to_string(),
            tags: vec!["d my-article".to_string()],
            relay: "wss://r1".to_string(),
        },
        EventRecord {
            id: "E1".to_string(),
            tags: vec!["d my-article".to_string()],
            relay: "wss://r2".to_string(),
        },
    ];
    let lines = ListingPresenter::render(&matched);
    assert_eq!(
        lines,
        vec![
            "Article tags: d my-article on relay: wss://r1".to_string(),
            "Article tags: d my-article on relay: wss://r2".to_string(),
        ]
    );
}

#[test]
fn listing_renders_a_record_without_tags() {
    let matched = vec![EventRecord {
        id: "E1".to_string(),
        tags: Vec::new(),
        relay: "wss://r1".to_string(),
    }];
    let lines = ListingPresenter::render(&matched);
    assert_eq!(lines, vec!["Article tags: on relay: wss://r1".to_string()]);
}
