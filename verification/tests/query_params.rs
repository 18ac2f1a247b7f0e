use search_messages::decimal::decimal_string;
use search_messages::ids::{GenericChannelId, MessageId, RoleId, UserId};
use search_messages::kinds::{AuthorType, MessageQuerySort, SearchEmbed, SearchHas};
use search_messages::params::boolean_value;
use search_messages::query::MessageQuery;

fn pairs(q: MessageQuery) -> Vec<(String, String)> {
    q.into_param_pairs().into_iter().map(|(k, v)| (k.to_string(), v)).collect()
}

fn expect(list: &[(&str, &str)]) -> Vec<(String, String)> {
    list.iter().map(|(k, v)| (k.to_string(), v.to_string())).collect()
}

#[test]
fn empty_query_sends_no_parameter() {
    assert!(MessageQuery::new().into_param_pairs().is_empty());
    assert!(MessageQuery::default().into_param_pairs().is_empty());
}

#[test]
fn limit_is_capped_at_25() {
    assert_eq!(pairs(MessageQuery::new().limit(10)), expect(&[("limit", "10")]));
    assert_eq!(pairs(MessageQuery::new().limit(25)), expect(&[("limit", "25")]));
    assert_eq!(pairs(MessageQuery::new().limit(26)), expect(&[("limit", "25")]));
    assert_eq!(pairs(MessageQuery::new().limit(255)), expect(&[("limit", "25")]));
    assert_eq!(pairs(MessageQuery::new().limit(0)), expect(&[("limit", "0")]));
}

#[test]
fn offset_is_capped_at_9975() {
    assert_eq!(pairs(MessageQuery::new().offset(100)), expect(&[("offset", "100")]));
    assert_eq!(pairs(MessageQuery::new().offset(9975)), expect(&[("offset", "9975")]));
    assert_eq!(pairs(MessageQuery::new().offset(10000)), expect(&[("offset", "9975")]));
    assert_eq!(pairs(MessageQuery::new().offset(u16::MAX)), expect(&[("offset", "9975")]));
}

#[test]
fn slop_is_capped_at_100() {
    assert_eq!(pairs(MessageQuery::new().slop(2)), expect(&[("slop", "2")]));
    assert_eq!(pairs(MessageQuery::new().slop(101)), expect(&[("slop", "100")]));
    assert_eq!(pairs(MessageQuery::new().slop(255)), expect(&[("slop", "100")]));
}

#[test]
fn a_later_scalar_setting_wins() {
    assert_eq!(pairs(MessageQuery::new().limit(3).limit(7)), expect(&[("limit", "7")]));
    assert_eq!(
        pairs(MessageQuery::new().pinned(true).pinned(false)),
        expect(&[("pinned", "0")])
    );
}

#[test]
fn before_and_after_set_max_and_min_id() {
    let q = MessageQuery::new()
        .after(MessageId::new(100))
        .before(MessageId::new(18446744073709551615));
    assert_eq!(
        pairs(q),
        expect(&[("max_id", "18446744073709551615"), ("min_id", "100")])
    );
}

#[test]
fn booleans_are_written_as_one_and_zero() {
    assert_eq!(boolean_value(true), "1");
    assert_eq!(boolean_value(false), "0");
    let q = MessageQuery::new().mention_everyone(true).pinned(false).include_nsfw(true);
    assert_eq!(
        pairs(q),
        expect(&[("mention_everyone", "1"), ("pinned", "0"), ("include_nsfw", "1")])
    );
}

#[test]
fn lists_repeat_their_key_in_order() {
    let q = MessageQuery::new().users_replied_to(vec![UserId::new(1), UserId::new(2), UserId::new(3)]);
    assert_eq!(
        pairs(q),
        expect(&[
            ("replied_to_user_id", "1"),
            ("replied_to_user_id", "2"),
            ("replied_to_user_id", "3"),
        ])
    );
}

#[test]
fn add_keeps_and_set_replaces() {
    let q = MessageQuery::new().add_channel_id(GenericChannelId::new(5)).add_channel_ids(vec![
        GenericChannelId::new(6),
        GenericChannelId::new(7),
    ]);
    assert_eq!(
        pairs(q.clone()),
        expect(&[("channel_id", "5"), ("channel_id", "6"), ("channel_id", "7")])
    );
    assert_eq!(pairs(q.clone().channel_id(GenericChannelId::new(9))), expect(&[("channel_id", "9")]));
    assert_eq!(
        pairs(q.channel_ids(vec![GenericChannelId::new(1), GenericChannelId::new(2)])),
        expect(&[("channel_id", "1"), ("channel_id", "2")])
    );
}

#[test]
fn setting_one_is_setting_a_list_of_one() {
    let base = MessageQuery::new().add_link_hostname("a.com").add_link_hostname("b.com");
    assert_eq!(
        pairs(base.clone().link_hostname("c.com")),
        pairs(base.link_hostnames(vec!["c.com"]))
    );
    let base = MessageQuery::new().add_role_mention(RoleId::new(4));
    assert_eq!(
        pairs(base.clone().role_mention(RoleId::new(8))),
        pairs(base.role_mentions(vec![RoleId::new(8)]))
    );
}

#[test]
fn string_lists_are_sent_as_given() {
    let q = MessageQuery::new()
        .embed_provider("YouTube")
        .add_embed_providers(vec!["Twitch"])
        .attachment_filenames(vec!["a.png", "b.txt"])
        .add_attachment_extension("png")
        .add_attachment_extensions(vec!["txt", "rs"]);
    assert_eq!(
        pairs(q),
        expect(&[
            ("embed_provider", "YouTube"),
            ("embed_provider", "Twitch"),
            ("attachment_filename", "a.png"),
            ("attachment_filename", "b.txt"),
            ("attachment_extension", "png"),
            ("attachment_extension", "txt"),
            ("attachment_extension", "rs"),
        ])
    );
}

#[test]
fn sort_choices() {
    assert_eq!(
        pairs(MessageQuery::new().sort(MessageQuerySort::Ascending)),
        expect(&[("sort_by", "timestamp"), ("sort_order", "asc")])
    );
    assert_eq!(
        pairs(MessageQuery::new().sort(MessageQuerySort::Descending)),
        expect(&[("sort_by", "timestamp"), ("sort_order", "desc")])
    );
    assert_eq!(
        pairs(MessageQuery::new().sort(MessageQuerySort::Ascending).sort(MessageQuerySort::ByRelevance)),
        expect(&[("sort_by", "relevance")])
    );
}

#[test]
fn every_parameter_in_its_order() {
    let q = MessageQuery::new()
        .include_nsfw(false)
        .sort(MessageQuerySort::Descending)
        .attachment_extension("gif")
        .attachment_filename("cat.gif")
        .link_hostname("example.com")
        .embed_provider("Tenor")
        .embed_type(SearchEmbed::Gif)
        .message_has_items(vec![SearchHas::Image, !SearchHas::Poll])
        .pinned(true)
        .message_replied_to(MessageId::new(42))
        .user_replied_to(UserId::new(43))
        .mention_everyone(false)
        .role_mention(RoleId::new(44))
        .user_mention(UserId::new(45))
        .author_id(UserId::new(46))
        .author_types(vec![AuthorType::User, !AuthorType::Bot])
        .channel_id(GenericChannelId::new(47))
        .content("hello world")
        .slop(3)
        .after(MessageId::new(48))
        .before(MessageId::new(49))
        .offset(50)
        .limit(5);
    assert_eq!(
        pairs(q),
        expect(&[
            ("limit", "5"),
            ("offset", "50"),
            ("max_id", "49"),
            ("min_id", "48"),
            ("slop", "3"),
            ("content", "hello world"),
            ("channel_id", "47"),
            ("author_type", "user"),
            ("author_type", "-bot"),
            ("author_id", "46"),
            ("mentions", "45"),
            ("mentions_role_id", "44"),
            ("mention_everyone", "0"),
            ("replied_to_user_id", "43"),
            ("replied_to_message_id", "42"),
            ("pinned", "1"),
            ("has", "image"),
            ("has", "-poll"),
            ("embed_type", "gif"),
            ("embed_provider", "Tenor"),
            ("link_hostname", "example.com"),
            ("attachment_filename", "cat.gif"),
            ("attachment_extension", "gif"),
            ("sort_by", "timestamp"),
            ("sort_order", "desc"),
            ("include_nsfw", "0"),
        ])
    );
}

#[test]
fn decimal_writing() {
    assert_eq!(decimal_string(0), "0");
    assert_eq!(decimal_string(9), "9");
    assert_eq!(decimal_string(10), "10");
    assert_eq!(decimal_string(1234567890), "1234567890");
    assert_eq!(decimal_string(u64::MAX), u64::MAX.to_string());
}
