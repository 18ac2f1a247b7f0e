use search_messages::ids::{GenericChannelId, MessageId, RoleId, UserId};
use search_messages::kinds::{
    AuthorType, SearchEmbed, SearchHas, SearchSortMode, SearchSortOrder, ShouldCache,
};
use search_messages::search::{
    group_by_channel, next_search_step, should_fill_cache, SearchOutcome, SearchStep,
    SHORT_DELAY_NANOS,
};

const AUTHOR_TYPES: [AuthorType; 6] = [
    AuthorType::User,
    AuthorType::Bot,
    AuthorType::Webhook,
    AuthorType::NotUser,
    AuthorType::NotBot,
    AuthorType::NotWebhook,
];

const SEARCH_HAS: [SearchHas; 18] = [
    SearchHas::Image,
    SearchHas::Sound,
    SearchHas::Video,
    SearchHas::File,
    SearchHas::Sticker,
    SearchHas::Embed,
    SearchHas::Link,
    SearchHas::Poll,
    SearchHas::Snapshot,
    SearchHas::NotImage,
    SearchHas::NotSound,
    SearchHas::NotVideo,
    SearchHas::NotFile,
    SearchHas::NotSticker,
    SearchHas::NotEmbed,
    SearchHas::NotLink,
    SearchHas::NotPoll,
    SearchHas::NotSnapshot,
];

#[test]
fn author_type_negation() {
    assert!(matches!(!AuthorType::User, AuthorType::NotUser));
    assert!(matches!(!AuthorType::NotUser, AuthorType::User));
    assert!(matches!(!AuthorType::Bot, AuthorType::NotBot));
    assert!(matches!(!AuthorType::NotWebhook, AuthorType::Webhook));
    for a in AUTHOR_TYPES {
        assert_eq!((!!a).as_str(), a.as_str());
        assert_ne!((!a).as_str(), a.as_str());
        let (pos, neg) = if a.as_str().starts_with('-') { (!a, a) } else { (a, !a) };
        assert_eq!(format!("-{}", pos.as_str()), neg.as_str());
    }
}

#[test]
fn author_type_texts() {
    let texts: Vec<&str> = AUTHOR_TYPES.iter().map(|a| a.as_str()).collect();
    assert_eq!(texts, vec!["user", "bot", "webhook", "-user", "-bot", "-webhook"]);
}

#[test]
fn search_has_negation() {
    assert_eq!(!SearchHas::Image, SearchHas::NotImage);
    assert_eq!(!SearchHas::NotImage, SearchHas::Image);
    assert_eq!(!SearchHas::Snapshot, SearchHas::NotSnapshot);
    for h in SEARCH_HAS {
        assert_eq!(!!h, h);
        assert_ne!(!h, h);
        let (pos, neg) = if h.as_str().starts_with('-') { (!h, h) } else { (h, !h) };
        assert_eq!(format!("-{}", pos.as_str()), neg.as_str());
    }
}

#[test]
fn search_has_texts() {
    let texts: Vec<&str> = SEARCH_HAS.iter().map(|h| h.as_str()).collect();
    assert_eq!(
        texts,
        vec![
            "image", "sound", "video", "file", "sticker", "embed", "link", "poll", "snapshot",
            "-image", "-sound", "-video", "-file", "-sticker", "-embed", "-link", "-poll",
            "-snapshot",
        ]
    );
}

#[test]
fn embed_and_sort_texts() {
    assert_eq!(SearchEmbed::Image.as_str(), "image");
    assert_eq!(SearchEmbed::Video.as_str(), "video");
    assert_eq!(SearchEmbed::Gif.as_str(), "gif");
    assert_eq!(SearchEmbed::Sound.as_str(), "sound");
    assert_eq!(SearchEmbed::Article.as_str(), "article");
    assert_eq!(SearchSortMode::Timestamp.as_str(), "timestamp");
    assert_eq!(SearchSortMode::Relevance.as_str(), "relevance");
    assert_eq!(SearchSortOrder::Ascending.as_str(), "asc");
    assert_eq!(SearchSortOrder::Descending.as_str(), "desc");
    assert_eq!(SearchSortMode::default().as_str(), "timestamp");
    assert_eq!(SearchSortOrder::default().as_str(), "desc");
}

#[test]
fn should_cache_defaults_to_no() {
    assert_eq!(ShouldCache::default(), ShouldCache::No);
}

#[test]
fn ids_keep_their_number() {
    assert_eq!(MessageId::new(7).get(), 7);
    assert_eq!(GenericChannelId::new(8).get(), 8);
    assert_eq!(UserId::new(9).get(), 9);
    assert_eq!(RoleId::new(10).get(), 10);
}

#[test]
fn not_indexed_waits_at_least_half_a_second() {
    assert_eq!(SHORT_DELAY_NANOS, 500_000_000);
    match next_search_step(SearchOutcome::NotIndexed { retry_after_nanos: 0 }) {
        SearchStep::Retry { delay_nanos } => assert_eq!(delay_nanos, 500_000_000),
        SearchStep::Finish => panic!("a search that is not indexed is retried"),
    }
    match next_search_step(SearchOutcome::NotIndexed { retry_after_nanos: 499_999_999 }) {
        SearchStep::Retry { delay_nanos } => assert_eq!(delay_nanos, 500_000_000),
        SearchStep::Finish => panic!("a search that is not indexed is retried"),
    }
    match next_search_step(SearchOutcome::NotIndexed { retry_after_nanos: 2_000_000_000 }) {
        SearchStep::Retry { delay_nanos } => assert_eq!(delay_nanos, 2_000_000_000),
        SearchStep::Finish => panic!("a search that is not indexed is retried"),
    }
}

#[test]
fn results_finish_the_search() {
    assert!(matches!(next_search_step(SearchOutcome::Results), SearchStep::Finish));
}

#[test]
fn cache_is_filled_only_when_asked_and_present() {
    assert!(should_fill_cache(true, ShouldCache::Yes));
    assert!(!should_fill_cache(true, ShouldCache::No));
    assert!(!should_fill_cache(false, ShouldCache::Yes));
    assert!(!should_fill_cache(false, ShouldCache::No));
}

#[test]
fn messages_are_grouped_by_channel() {
    let c = |n: u64| GenericChannelId::new(n);
    let groups = group_by_channel(&vec![c(1), c(2), c(1), c(3), c(2), c(1)]);
    assert_eq!(
        groups,
        vec![(c(1), vec![0, 2, 5]), (c(2), vec![1, 4]), (c(3), vec![3])]
    );
    assert!(group_by_channel(&vec![]).is_empty());
}
