use vstd::prelude::*;

verus! {

/// Should the queried messages be cached?
#[derive(Copy, Clone, Debug, PartialEq, Eq, Structural)]
pub enum ShouldCache {
    Yes,
    No,
}

impl Default for ShouldCache {
    fn default() -> (r: Self)
        ensures
            r == ShouldCache::No,
    {
        ShouldCache::No
    }
}

/// Types of authors the result messages should or should not have been sent by.
///
/// Discord will allow you to both require a type and exclude it (for example, `Bot` and `NotBot`).
/// This will probably not produce useful results, but it is possible to do.
///
/// For convenience, the `!` operator is implemented for these enum variants;
/// `!User` returns `NotUser` and `!NotUser` returns `User`, etc.
#[derive(Copy, Clone, Debug)]
pub enum AuthorType {
    /// Return messages sent by user accounts.
    User,
    /// Return messages sent by bot accounts.
    Bot,
    /// Return messages sent by webhooks.
    Webhook,
    /// Return messages not sent by user accounts.
    NotUser,
    /// Return messages not sent by bot accounts.
    NotBot,
    /// Return messages not sent by webhooks.
    NotWebhook,
}

/// The author type that excludes what `a` requires, and requires what `a` excludes.
pub open spec fn author_type_negation(a: AuthorType) -> AuthorType {
    match a {
        AuthorType::User => AuthorType::NotUser,
        AuthorType::Bot => AuthorType::NotBot,
        AuthorType::Webhook => AuthorType::NotWebhook,
        AuthorType::NotUser => AuthorType::User,
        AuthorType::NotBot => AuthorType::Bot,
        AuthorType::NotWebhook => AuthorType::Webhook,
    }
}

/// The text by which Discord knows an author type.
pub open spec fn author_type_text(a: AuthorType) -> Seq<char> {
    match a {
        AuthorType::User => "user"@,
        AuthorType::Bot => "bot"@,
        AuthorType::Webhook => "webhook"@,
        AuthorType::NotUser => "-user"@,
        AuthorType::NotBot => "-bot"@,
        AuthorType::NotWebhook => "-webhook"@,
    }
}

/// Whether an author type excludes rather than requires.
pub open spec fn author_type_is_exclusion(a: AuthorType) -> bool {
    match a {
        AuthorType::NotUser | AuthorType::NotBot | AuthorType::NotWebhook => true,
        _ => false,
    }
}

impl AuthorType {
    /// The text by which Discord knows this author type.
    pub fn as_str(&self) -> (r: &'static str)
        ensures
            r@ == author_type_text(*self),
    {
        match self {
            AuthorType::User => "user",
            AuthorType::Bot => "bot",
            AuthorType::Webhook => "webhook",
            AuthorType::NotUser => "-user",
            AuthorType::NotBot => "-bot",
            AuthorType::NotWebhook => "-webhook",
        }
    }
}

impl core::ops::Not for AuthorType {
    type Output = Self;

    fn not(self) -> (r: Self)
        ensures
            r == author_type_negation(self),
    {
        match self {
            AuthorType::User => AuthorType::NotUser,
            AuthorType::Bot => AuthorType::NotBot,
            AuthorType::Webhook => AuthorType::NotWebhook,
            AuthorType::NotUser => AuthorType::User,
            AuthorType::NotBot => AuthorType::Bot,
            AuthorType::NotWebhook => AuthorType::Webhook,
        }
    }
}

impl vstd::std_specs::ops::NotSpecImpl for AuthorType {
    open spec fn obeys_not_spec() -> bool {
        true
    }

    open spec fn not_req(self) -> bool {
        true
    }

    open spec fn not_spec(self) -> Self {
        author_type_negation(self)
    }
}

/// Negating an author type twice gives it back, and negation swaps requiring and
/// excluding: the text of the excluding one is the text of the other behind a `-`.
pub proof fn lemma_author_type_negation(a: AuthorType)
    ensures
        author_type_negation(author_type_negation(a)) == a,
        author_type_negation(a) != a,
        author_type_is_exclusion(author_type_negation(a)) == !author_type_is_exclusion(a),
        !author_type_is_exclusion(a) ==> author_type_text(author_type_negation(a)) == seq!['-']
            + author_type_text(a),
        author_type_is_exclusion(a) ==> author_type_text(a) == seq!['-'] + author_type_text(
            author_type_negation(a),
        ),
{
    reveal_strlit("user");
    reveal_strlit("bot");
    reveal_strlit("webhook");
    reveal_strlit("-user");
    reveal_strlit("-bot");
    reveal_strlit("-webhook");
    match a {
        AuthorType::User | AuthorType::NotUser => {
            assert("-user"@ =~= seq!['-'] + "user"@);
        },
        AuthorType::Bot | AuthorType::NotBot => {
            assert("-bot"@ =~= seq!['-'] + "bot"@);
        },
        AuthorType::Webhook | AuthorType::NotWebhook => {
            assert("-webhook"@ =~= seq!['-'] + "webhook"@);
        },
    }
}

/// Specific things the result messages should or should not have.
///
/// Discord will allow you to both require a thing and exclude it (for example, `Image` and
/// `NotImage`). This will probably not produce useful results, but it is possible to do.
///
/// For convenience, the `!` operator is implemented for these enum variants;
/// `!Image` returns `NotImage` and `!NotImage` returns `Image`, etc.
#[derive(Copy, Clone, Debug, PartialEq, Eq, Hash, Structural)]
pub enum SearchHas {
    /// Return messages that have an image.
    Image,
    /// Return messages that have a sound attachment.
    Sound,
    /// Return messages that have a video.
    Video,
    /// Return messages that have an attachment.
    File,
    /// Return messages that have a sent sticker.
    Sticker,
    /// Return messages that have an embed.
    Embed,
    /// Return messages that have a link.
    Link,
    /// Return messages that have a poll.
    Poll,
    /// Return messages that have a forwarded message.
    Snapshot,

    /// Return messages that do not have an image.
    NotImage,
    /// Return messages that do not have a sound attachment.
    NotSound,
    /// Return messages that do not have a video.
    NotVideo,
    /// Return messages that do not have an attachment.
    NotFile,
    /// Return messages that do not have a sent sticker.
    NotSticker,
    /// Return messages that do not have an embed.
    NotEmbed,
    /// Return messages that do not have a link.
    NotLink,
    /// Return messages that do not have a poll.
    NotPoll,
    /// Return messages that do not have a forwarded message.
    NotSnapshot,
}

/// The thing that `h` excludes when it requires it, and requires when it excludes it.
pub open spec fn search_has_negation(h: SearchHas) -> SearchHas {
    match h {
        SearchHas::Image => SearchHas::NotImage,
        SearchHas::Sound => SearchHas::NotSound,
        SearchHas::Video => SearchHas::NotVideo,
        SearchHas::File => SearchHas::NotFile,
        SearchHas::Sticker => SearchHas::NotSticker,
        SearchHas::Embed => SearchHas::NotEmbed,
        SearchHas::Link => SearchHas::NotLink,
        SearchHas::Poll => SearchHas::NotPoll,
        SearchHas::Snapshot => SearchHas::NotSnapshot,
        SearchHas::NotImage => SearchHas::Image,
        SearchHas::NotSound => SearchHas::Sound,
        SearchHas::NotVideo => SearchHas::Video,
        SearchHas::NotFile => SearchHas::File,
        SearchHas::NotSticker => SearchHas::Sticker,
        SearchHas::NotEmbed => SearchHas::Embed,
        SearchHas::NotLink => SearchHas::Link,
        SearchHas::NotPoll => SearchHas::Poll,
        SearchHas::NotSnapshot => SearchHas::Snapshot,
    }
}

/// The text by which Discord knows a searched-for thing.
pub open spec fn search_has_text(h: SearchHas) -> Seq<char> {
    match h {
        SearchHas::Image => "image"@,
        SearchHas::Sound => "sound"@,
        SearchHas::Video => "video"@,
        SearchHas::File => "file"@,
        SearchHas::Sticker => "sticker"@,
        SearchHas::Embed => "embed"@,
        SearchHas::Link => "link"@,
        SearchHas::Poll => "poll"@,
        SearchHas::Snapshot => "snapshot"@,
        SearchHas::NotImage => "-image"@,
        SearchHas::NotSound => "-sound"@,
        SearchHas::NotVideo => "-video"@,
        SearchHas::NotFile => "-file"@,
        SearchHas::NotSticker => "-sticker"@,
        SearchHas::NotEmbed => "-embed"@,
        SearchHas::NotLink => "-link"@,
        SearchHas::NotPoll => "-poll"@,
        SearchHas::NotSnapshot => "-snapshot"@,
    }
}

/// Whether `h` excludes rather than requires.
pub open spec fn search_has_is_exclusion(h: SearchHas) -> bool {
    match h {
        SearchHas::NotImage | SearchHas::NotSound | SearchHas::NotVideo | SearchHas::NotFile | SearchHas::NotSticker | SearchHas::NotEmbed | SearchHas::NotLink | SearchHas::NotPoll | SearchHas::NotSnapshot => true,
        _ => false,
    }
}

impl SearchHas {
    /// The text by which Discord knows this searched-for thing.
    pub fn as_str(&self) -> (r: &'static str)
        ensures
            r@ == search_has_text(*self),
    {
        match self {
            SearchHas::Image => "image",
            SearchHas::Sound => "sound",
            SearchHas::Video => "video",
            SearchHas::File => "file",
            SearchHas::Sticker => "sticker",
            SearchHas::Embed => "embed",
            SearchHas::Link => "link",
            SearchHas::Poll => "poll",
            SearchHas::Snapshot => "snapshot",
            SearchHas::NotImage => "-image",
            SearchHas::NotSound => "-sound",
            SearchHas::NotVideo => "-video",
            SearchHas::NotFile => "-file",
            SearchHas::NotSticker => "-sticker",
            SearchHas::NotEmbed => "-embed",
            SearchHas::NotLink => "-link",
            SearchHas::NotPoll => "-poll",
            SearchHas::NotSnapshot => "-snapshot",
        }
    }
}

impl core::ops::Not for SearchHas {
    type Output = Self;

    fn not(self) -> (r: Self)
        ensures
            r == search_has_negation(self),
    {
        match self {
            SearchHas::Image => SearchHas::NotImage,
            SearchHas::Sound => SearchHas::NotSound,
            SearchHas::Video => SearchHas::NotVideo,
            SearchHas::File => SearchHas::NotFile,
            SearchHas::Sticker => SearchHas::NotSticker,
            SearchHas::Embed => SearchHas::NotEmbed,
            SearchHas::Link => SearchHas::NotLink,
            SearchHas::Poll => SearchHas::NotPoll,
            SearchHas::Snapshot => SearchHas::NotSnapshot,
            SearchHas::NotImage => SearchHas::Image,
            SearchHas::NotSound => SearchHas::Sound,
            SearchHas::NotVideo => SearchHas::Video,
            SearchHas::NotFile => SearchHas::File,
            SearchHas::NotSticker => SearchHas::Sticker,
            SearchHas::NotEmbed => SearchHas::Embed,
            SearchHas::NotLink => SearchHas::Link,
            SearchHas::NotPoll => SearchHas::Poll,
            SearchHas::NotSnapshot => SearchHas::Snapshot,
        }
    }
}

impl vstd::std_specs::ops::NotSpecImpl for SearchHas {
    open spec fn obeys_not_spec() -> bool {
        true
    }

    open spec fn not_req(self) -> bool {
        true
    }

    open spec fn not_spec(self) -> Self {
        search_has_negation(self)
    }
}

/// Negating a searched-for thing twice gives it back, and negation swaps requiring and
/// excluding: the text of the excluding one is the text of the other behind a `-`.
pub proof fn lemma_search_has_negation(h: SearchHas)
    ensures
        search_has_negation(search_has_negation(h)) == h,
        search_has_negation(h) != h,
        search_has_is_exclusion(search_has_negation(h)) == !search_has_is_exclusion(h),
        !search_has_is_exclusion(h) ==> search_has_text(search_has_negation(h)) == seq!['-']
            + search_has_text(h),
        search_has_is_exclusion(h) ==> search_has_text(h) == seq!['-'] + search_has_text(
            search_has_negation(h),
        ),
{
    reveal_strlit("image");
    reveal_strlit("-image");
    reveal_strlit("sound");
    reveal_strlit("-sound");
    reveal_strlit("video");
    reveal_strlit("-video");
    reveal_strlit("file");
    reveal_strlit("-file");
    reveal_strlit("sticker");
    reveal_strlit("-sticker");
    reveal_strlit("embed");
    reveal_strlit("-embed");
    reveal_strlit("link");
    reveal_strlit("-link");
    reveal_strlit("poll");
    reveal_strlit("-poll");
    reveal_strlit("snapshot");
    reveal_strlit("-snapshot");
    match h {
        SearchHas::Image | SearchHas::NotImage => {
            assert("-image"@ =~= seq!['-'] + "image"@);
        },
        SearchHas::Sound | SearchHas::NotSound => {
            assert("-sound"@ =~= seq!['-'] + "sound"@);
        },
        SearchHas::Video | SearchHas::NotVideo => {
            assert("-video"@ =~= seq!['-'] + "video"@);
        },
        SearchHas::File | SearchHas::NotFile => {
            assert("-file"@ =~= seq!['-'] + "file"@);
        },
        SearchHas::Sticker | SearchHas::NotSticker => {
            assert("-sticker"@ =~= seq!['-'] + "sticker"@);
        },
        SearchHas::Embed | SearchHas::NotEmbed => {
            assert("-embed"@ =~= seq!['-'] + "embed"@);
        },
        SearchHas::Link | SearchHas::NotLink => {
            assert("-link"@ =~= seq!['-'] + "link"@);
        },
        SearchHas::Poll | SearchHas::NotPoll => {
            assert("-poll"@ =~= seq!['-'] + "poll"@);
        },
        SearchHas::Snapshot | SearchHas::NotSnapshot => {
            assert("-snapshot"@ =~= seq!['-'] + "snapshot"@);
        },
    }
}

/// Specify embed types the result messages should have.
///
/// These do not correspond 1:1 to actual embed types and encompass a wider range of actual types.
#[derive(Copy, Clone, Debug)]
pub enum SearchEmbed {
    /// Return messages that have an image embed.
    Image,
    /// Return messages that have a video embed.
    Video,
    /// Return messages that have a gifv embed.
    Gif,
    /// Return messages that have a sound embed.
    Sound,
    /// Return messages that have an article embed.
    Article,
}

/// The text by which Discord knows an embed type.
pub open spec fn search_embed_text(e: SearchEmbed) -> Seq<char> {
    match e {
        SearchEmbed::Image => "image"@,
        SearchEmbed::Video => "video"@,
        SearchEmbed::Gif => "gif"@,
        SearchEmbed::Sound => "sound"@,
        SearchEmbed::Article => "article"@,
    }
}

impl SearchEmbed {
    /// The text by which Discord knows this embed type.
    pub fn as_str(&self) -> (r: &'static str)
        ensures
            r@ == search_embed_text(*self),
    {
        match self {
            SearchEmbed::Image => "image",
            SearchEmbed::Video => "video",
            SearchEmbed::Gif => "gif",
            SearchEmbed::Sound => "sound",
            SearchEmbed::Article => "article",
        }
    }
}

/// Sort by message creation time or by relevance.
#[derive(Copy, Clone, Debug)]
pub enum MessageQuerySort {
    /// Sort by message creation time in ascending order.
    Ascending,
    /// Sort by message creation time in descending order.
    Descending,
    /// Sort by the relevance of the message to the search query.
    ByRelevance,
}

/// What the results are sorted by.
#[derive(Copy, Clone, Debug)]
pub enum SearchSortMode {
    Timestamp,
    Relevance,
}

impl Default for SearchSortMode {
    fn default() -> (r: Self)
        ensures
            r == SearchSortMode::Timestamp,
    {
        SearchSortMode::Timestamp
    }
}

/// The text by which Discord knows a sort mode.
pub open spec fn sort_mode_text(m: SearchSortMode) -> Seq<char> {
    match m {
        SearchSortMode::Timestamp => "timestamp"@,
        SearchSortMode::Relevance => "relevance"@,
    }
}

impl SearchSortMode {
    /// The text by which Discord knows this sort mode.
    pub fn as_str(&self) -> (r: &'static str)
        ensures
            r@ == sort_mode_text(*self),
    {
        match self {
            SearchSortMode::Timestamp => "timestamp",
            SearchSortMode::Relevance => "relevance",
        }
    }
}

/// In which direction the results are sorted.
#[derive(Copy, Clone, Debug)]
pub enum SearchSortOrder {
    Ascending,
    Descending,
}

impl Default for SearchSortOrder {
    fn default() -> (r: Self)
        ensures
            r == SearchSortOrder::Descending,
    {
        SearchSortOrder::Descending
    }
}

/// The text by which Discord knows a sort order.
pub open spec fn sort_order_text(o: SearchSortOrder) -> Seq<char> {
    match o {
        SearchSortOrder::Ascending => "asc"@,
        SearchSortOrder::Descending => "desc"@,
    }
}

impl SearchSortOrder {
    /// The text by which Discord knows this sort order.
    pub fn as_str(&self) -> (r: &'static str)
        ensures
            r@ == sort_order_text(*self),
    {
        match self {
            SearchSortOrder::Ascending => "asc",
            SearchSortOrder::Descending => "desc",
        }
    }
}

} // verus!
