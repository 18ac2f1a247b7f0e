use vstd::prelude::*;

use crate::ids::{GenericChannelId, MessageId, RoleId, UserId};
use crate::params::{param_pairs, params_view, push_list, push_optional, texts};
use crate::kinds::{AuthorType, MessageQuerySort, SearchEmbed, SearchHas, SearchSortMode, SearchSortOrder};

verus! {

/// The largest number of messages that one search returns.
pub const LIMIT_CAP: u8 = 25;

/// The largest offset from which a search can page.
pub const OFFSET_CAP: u16 = 9975;

/// The largest number of words that may be skipped between matching tokens.
pub const SLOP_CAP: u8 = 100;

/// `nonmax::NonMaxU8::new` with the value read back by `get`: the crate's source
/// gives `None` exactly for `u8::MAX` and otherwise a value whose `get` is the input.
#[verifier::external_body]
fn non_max_u8(value: u8) -> (r: Option<u8>)
    ensures
        r == (if value == u8::MAX { None } else { Some(value) }),
{
    nonmax::NonMaxU8::new(value).map(|n| n.get())
}

/// `nonmax::NonMaxU16::new` with the value read back by `get`: the crate's source
/// gives `None` exactly for `u16::MAX` and otherwise a value whose `get` is the input.
#[verifier::external_body]
fn non_max_u16(value: u16) -> (r: Option<u16>)
    ensures
        r == (if value == u16::MAX { None } else { Some(value) }),
{
    nonmax::NonMaxU16::new(value).map(|n| n.get())
}

/// The text of each string of a list.
pub open spec fn strings_view(v: Seq<String>) -> Seq<Seq<char>> {
    v.map_values(|s: String| s@)
}

/// The text of each string slice of a list.
pub open spec fn strs_view(v: Seq<&str>) -> Seq<Seq<char>> {
    v.map_values(|s: &str| s@)
}

/// The text of an optional string.
pub open spec fn opt_string_view(o: Option<String>) -> Option<Seq<char>> {
    match o {
        Some(s) => Some(s@),
        None => None,
    }
}

/// The smaller of two numbers.
pub open spec fn min_int(a: int, b: int) -> int {
    if a <= b { a } else { b }
}

fn to_strings(v: Vec<&str>) -> (r: Vec<String>)
    ensures
        strings_view(r@) == strs_view(v@),
{
    let mut r: Vec<String> = Vec::new();
    let n = v.len();
    for i in 0..n
        invariant
            n == v@.len(),
            strings_view(r@) == strs_view(v@).take(i as int),
    {
        let s = String::from_str(v[i]);
        let ghost before = r@;
        r.push(s);
        proof {
            assert(strings_view(r@) =~= strings_view(before).push(s@));
            assert(strs_view(v@).take(i + 1) =~= strs_view(v@).take(i as int).push(v@[i as int]@));
        }
    }
    proof {
        assert(strs_view(v@).take(n as int) =~= strs_view(v@));
    }
    r
}

fn copy_list<T: Copy>(v: &Vec<T>) -> (r: Vec<T>)
    ensures
        r@ == v@,
{
    let mut r: Vec<T> = Vec::new();
    let n = v.len();
    for i in 0..n
        invariant
            n == v@.len(),
            r@ == v@.take(i as int),
    {
        r.push(v[i]);
        proof {
            assert(r@ =~= v@.take(i + 1));
        }
    }
    proof {
        assert(v@.take(n as int) =~= v@);
    }
    r
}

fn clone_strings(v: &Vec<String>) -> (r: Vec<String>)
    ensures
        strings_view(r@) == strings_view(v@),
{
    let mut r: Vec<String> = Vec::new();
    let n = v.len();
    for i in 0..n
        invariant
            n == v@.len(),
            strings_view(r@) == strings_view(v@).take(i as int),
    {
        let s = v[i].clone();
        let ghost before = r@;
        r.push(s);
        proof {
            assert(strings_view(r@) =~= strings_view(before).push(s@));
            assert(strings_view(v@).take(i + 1) =~= strings_view(v@).take(i as int).push(v@[i as int]@));
        }
    }
    proof {
        assert(strings_view(v@).take(n as int) =~= strings_view(v@));
    }
    r
}

/// What a message search query holds: each filter, with `None` or an empty list where
/// the query leaves it to Discord's default.
#[verifier::ext_equal]
pub struct MessageQueryView {
    pub limit: Option<u8>,
    pub offset: Option<u16>,
    pub max_id: Option<MessageId>,
    pub min_id: Option<MessageId>,
    pub slop: Option<u8>,
    pub content: Option<Seq<char>>,
    pub channel_ids: Seq<GenericChannelId>,
    pub author_types: Seq<AuthorType>,
    pub author_ids: Seq<UserId>,
    pub mention_user_ids: Seq<UserId>,
    pub mention_role_ids: Seq<RoleId>,
    pub mention_everyone: Option<bool>,
    pub replied_to_user_ids: Seq<UserId>,
    pub replied_to_message_ids: Seq<MessageId>,
    pub pinned: Option<bool>,
    pub has: Seq<SearchHas>,
    pub embed_types: Seq<SearchEmbed>,
    pub embed_providers: Seq<Seq<char>>,
    pub link_hostnames: Seq<Seq<char>>,
    pub attachment_filenames: Seq<Seq<char>>,
    pub attachment_extensions: Seq<Seq<char>>,
    pub sort_by: Option<SearchSortMode>,
    pub sort_order: Option<SearchSortOrder>,
    pub include_nsfw: Option<bool>,
}

/// The query that filters nothing.
pub open spec fn empty_query() -> MessageQueryView {
    MessageQueryView {
        limit: None,
        offset: None,
        max_id: None,
        min_id: None,
        slop: None,
        content: None,
        channel_ids: Seq::empty(),
        author_types: Seq::empty(),
        author_ids: Seq::empty(),
        mention_user_ids: Seq::empty(),
        mention_role_ids: Seq::empty(),
        mention_everyone: None,
        replied_to_user_ids: Seq::empty(),
        replied_to_message_ids: Seq::empty(),
        pinned: None,
        has: Seq::empty(),
        embed_types: Seq::empty(),
        embed_providers: Seq::empty(),
        link_hostnames: Seq::empty(),
        attachment_filenames: Seq::empty(),
        attachment_extensions: Seq::empty(),
        sort_by: None,
        sort_order: None,
        include_nsfw: None,
    }
}

/// Builds a request to the API to search messages in a Guild.
#[derive(Debug)]
pub struct MessageQuery {
    limit: Option<u8>,
    offset: Option<u16>,
    max_id: Option<MessageId>,
    min_id: Option<MessageId>,
    slop: Option<u8>,
    content: Option<String>,
    channel_ids: Vec<GenericChannelId>,
    author_types: Vec<AuthorType>,
    author_ids: Vec<UserId>,
    mention_user_ids: Vec<UserId>,
    mention_role_ids: Vec<RoleId>,
    mention_everyone: Option<bool>,
    replied_to_user_ids: Vec<UserId>,
    replied_to_message_ids: Vec<MessageId>,
    pinned: Option<bool>,
    has: Vec<SearchHas>,
    embed_types: Vec<SearchEmbed>,
    embed_providers: Vec<String>,
    link_hostnames: Vec<String>,
    attachment_filenames: Vec<String>,
    attachment_extensions: Vec<String>,
    sort_by: Option<SearchSortMode>,
    sort_order: Option<SearchSortOrder>,
    include_nsfw: Option<bool>,
}

impl View for MessageQuery {
    type V = MessageQueryView;

    closed spec fn view(&self) -> MessageQueryView {
        MessageQueryView {
            limit: self.limit,
            offset: self.offset,
            max_id: self.max_id,
            min_id: self.min_id,
            slop: self.slop,
            content: opt_string_view(self.content),
            channel_ids: self.channel_ids@,
            author_types: self.author_types@,
            author_ids: self.author_ids@,
            mention_user_ids: self.mention_user_ids@,
            mention_role_ids: self.mention_role_ids@,
            mention_everyone: self.mention_everyone,
            replied_to_user_ids: self.replied_to_user_ids@,
            replied_to_message_ids: self.replied_to_message_ids@,
            pinned: self.pinned,
            has: self.has@,
            embed_types: self.embed_types@,
            embed_providers: strings_view(self.embed_providers@),
            link_hostnames: strings_view(self.link_hostnames@),
            attachment_filenames: strings_view(self.attachment_filenames@),
            attachment_extensions: strings_view(self.attachment_extensions@),
            sort_by: self.sort_by,
            sort_order: self.sort_order,
            include_nsfw: self.include_nsfw,
        }
    }
}

impl MessageQuery {
    /// The caps that Discord puts on the numbers of a search hold of every query.
    #[verifier::type_invariant]
    spec fn within_caps(self) -> bool {
        within_caps(self@)
    }
}

/// Whether the limit, offset and slop of a query are within Discord's caps.
pub open spec fn within_caps(q: MessageQueryView) -> bool {
    &&& q.limit matches Some(l) ==> l <= LIMIT_CAP
    &&& q.offset matches Some(o) ==> o <= OFFSET_CAP
    &&& q.slop matches Some(s) ==> s <= SLOP_CAP
}

impl Clone for MessageQuery {
    fn clone(&self) -> (r: Self)
        ensures
            r@ == self@,
    {
        proof {
            use_type_invariant(self);
        }
        let content = match &self.content {
            Some(c) => Some(c.clone()),
            None => None,
        };
        MessageQuery {
            limit: self.limit,
            offset: self.offset,
            max_id: self.max_id,
            min_id: self.min_id,
            slop: self.slop,
            content: content,
            channel_ids: copy_list(&self.channel_ids),
            author_types: copy_list(&self.author_types),
            author_ids: copy_list(&self.author_ids),
            mention_user_ids: copy_list(&self.mention_user_ids),
            mention_role_ids: copy_list(&self.mention_role_ids),
            mention_everyone: self.mention_everyone,
            replied_to_user_ids: copy_list(&self.replied_to_user_ids),
            replied_to_message_ids: copy_list(&self.replied_to_message_ids),
            pinned: self.pinned,
            has: copy_list(&self.has),
            embed_types: copy_list(&self.embed_types),
            embed_providers: clone_strings(&self.embed_providers),
            link_hostnames: clone_strings(&self.link_hostnames),
            attachment_filenames: clone_strings(&self.attachment_filenames),
            attachment_extensions: clone_strings(&self.attachment_extensions),
            sort_by: self.sort_by,
            sort_order: self.sort_order,
            include_nsfw: self.include_nsfw,
        }
    }
}

impl Default for MessageQuery {
    fn default() -> (r: Self)
        ensures
            within_caps(r@),
            r@ == empty_query(),
    {
        MessageQuery {
            limit: None,
            offset: None,
            max_id: None,
            min_id: None,
            slop: None,
            content: None,
            channel_ids: Vec::new(),
            author_types: Vec::new(),
            author_ids: Vec::new(),
            mention_user_ids: Vec::new(),
            mention_role_ids: Vec::new(),
            mention_everyone: None,
            replied_to_user_ids: Vec::new(),
            replied_to_message_ids: Vec::new(),
            pinned: None,
            has: Vec::new(),
            embed_types: Vec::new(),
            embed_providers: Vec::new(),
            link_hostnames: Vec::new(),
            attachment_filenames: Vec::new(),
            attachment_extensions: Vec::new(),
            sort_by: None,
            sort_order: None,
            include_nsfw: None,
        }
    }
}

impl MessageQuery {
    /// Equivalent to `Self::default`.
    pub fn new() -> (r: Self)
        ensures
            within_caps(r@),
            r@ == empty_query(),
    {
        Self::default()
    }

    /// The maximum number of messages to retrieve for the query.
    ///
    /// If this is not specified, Discord's default (currently 25) will be used.
    ///
    /// **Note**: This field is capped to 25 messages due to a Discord limitation. If an amount
    /// larger than 25 is supplied, it will be truncated.
    pub fn limit(self, limit: u8) -> (r: Self)
        ensures
            within_caps(r@),
            r@ == (MessageQueryView { limit: Some(min_int(limit as int, LIMIT_CAP as int) as u8), ..self@ }),
    {
        let mut q = self;
        proof {
            use_type_invariant(&q);
        }
        let capped = if limit < LIMIT_CAP { limit } else { LIMIT_CAP };
        q.limit = non_max_u8(capped);
        q
    }

    /// Offset to paginate through results.
    ///
    /// **Note**: This field is capped to 9975 due to a Discord limitation. If an amount larger than
    /// 9975 is supplied, it will be truncated.
    pub fn offset(self, offset: u16) -> (r: Self)
        ensures
            within_caps(r@),
            r@ == (MessageQueryView { offset: Some(min_int(offset as int, OFFSET_CAP as int) as u16), ..self@ }),
    {
        let mut q = self;
        proof {
            use_type_invariant(&q);
        }
        let capped = if offset < OFFSET_CAP { offset } else { OFFSET_CAP };
        q.offset = non_max_u16(capped);
        q
    }

    /// Indicates to query messages after a specific message, given its Id.
    pub fn after(self, message_id: MessageId) -> (r: Self)
        ensures
            within_caps(r@),
            r@ == (MessageQueryView { min_id: Some(message_id), ..self@ }),
    {
        let mut q = self;
        proof {
            use_type_invariant(&q);
        }
        q.min_id = Some(message_id);
        q
    }

    /// Indicates to query messages before a specific message, given its Id.
    pub fn before(self, message_id: MessageId) -> (r: Self)
        ensures
            within_caps(r@),
            r@ == (MessageQueryView { max_id: Some(message_id), ..self@ }),
    {
        let mut q = self;
        proof {
            use_type_invariant(&q);
        }
        q.max_id = Some(message_id);
        q
    }

    /// Search message content.
    ///
    /// **Note**: Message content query must be under 1024 unicode code points.
    pub fn content(self, content: &str) -> (r: Self)
        ensures
            within_caps(r@),
            r@ == (MessageQueryView { content: Some(content@), ..self@ }),
    {
        let mut q = self;
        proof {
            use_type_invariant(&q);
        }
        q.content = Some(String::from_str(content));
        q
    }

    /// Max number of words to skip between matching tokens in the search content.
    ///
    /// If this is not specified, Discord's default (currently 2) will be used.
    ///
    /// **Note**: This field is capped to 100 due to a Discord limitation. If an amount larger than
    /// 100 is supplied, it will be truncated.
    pub fn slop(self, slop: u8) -> (r: Self)
        ensures
            within_caps(r@),
            r@ == (MessageQueryView { slop: Some(min_int(slop as int, SLOP_CAP as int) as u8), ..self@ }),
    {
        let mut q = self;
        proof {
            use_type_invariant(&q);
        }
        let capped = if slop < SLOP_CAP { slop } else { SLOP_CAP };
        q.slop = non_max_u8(capped);
        q
    }

    /// Add a channel/thread to the search.
    ///
    /// **Note**: This will keep all existing channels/threads. Use `Self::channel_id()` to replace existing channels/threads.
    pub fn add_channel_id(self, channel_id: GenericChannelId) -> (r: Self)
        ensures
            within_caps(r@),
            r@ == (MessageQueryView { channel_ids: self@.channel_ids.push(channel_id), ..self@ }),
    {
        let mut q = self;
        proof {
            use_type_invariant(&q);
        }
        let mut list = q.channel_ids;
        list.push(channel_id);
        q.channel_ids = list;
        q
    }

    /// Add multiple channels/threads to the search.
    ///
    /// **Note**: This will keep all existing channels/threads. Use `Self::channel_ids()` to replace existing channels/threads.
    pub fn add_channel_ids(self, channel_ids: Vec<GenericChannelId>) -> (r: Self)
        ensures
            within_caps(r@),
            r@ == (MessageQueryView { channel_ids: self@.channel_ids + channel_ids@, ..self@ }),
    {
        let mut q = self;
        proof {
            use_type_invariant(&q);
        }
        let mut more = channel_ids;
        let mut list = q.channel_ids;
        list.append(&mut more);
        q.channel_ids = list;
        q
    }

    /// Set a channel/thread in the search.
    ///
    /// **Note**: This will replace all existing channels/threads. Use `Self::add_channel_id()` to keep existing channels/threads.
    pub fn channel_id(self, channel_id: GenericChannelId) -> (r: Self)
        ensures
            within_caps(r@),
            r@ == (MessageQueryView { channel_ids: seq![channel_id], ..self@ }),
    {
        self.channel_ids(vec![channel_id])
    }

    /// Set multiple channels/threads in the search.
    ///
    /// **Note**: This will replace all existing channels/threads. Use `Self::add_channel_ids()` to keep existing channels/threads.
    pub fn channel_ids(self, channel_ids: Vec<GenericChannelId>) -> (r: Self)
        ensures
            within_caps(r@),
            r@ == (MessageQueryView { channel_ids: channel_ids@, ..self@ }),
    {
        let mut q = self;
        proof {
            use_type_invariant(&q);
        }
        q.channel_ids = channel_ids;
        q
    }

    /// Add an author type to the search.
    ///
    /// **Note**: This will keep all existing author types. Use `Self::author_type()` to replace existing author types.
    pub fn add_author_type(self, author_type: AuthorType) -> (r: Self)
        ensures
            within_caps(r@),
            r@ == (MessageQueryView { author_types: self@.author_types.push(author_type), ..self@ }),
    {
        let mut q = self;
        proof {
            use_type_invariant(&q);
        }
        let mut list = q.author_types;
        list.push(author_type);
        q.author_types = list;
        q
    }

    /// Add multiple author types to the search.
    ///
    /// **Note**: This will keep all existing author types. Use `Self::author_types()` to replace existing author types.
    pub fn add_author_types(self, author_types: Vec<AuthorType>) -> (r: Self)
        ensures
            within_caps(r@),
            r@ == (MessageQueryView { author_types: self@.author_types + author_types@, ..self@ }),
    {
        let mut q = self;
        proof {
            use_type_invariant(&q);
        }
        let mut more = author_types;
        let mut list = q.author_types;
        list.append(&mut more);
        q.author_types = list;
        q
    }

    /// Set an author type in the search.
    ///
    /// **Note**: This will replace all existing author types. Use `Self::add_author_type()` to keep existing author types.
    pub fn author_type(self, author_type: AuthorType) -> (r: Self)
        ensures
            within_caps(r@),
            r@ == (MessageQueryView { author_types: seq![author_type], ..self@ }),
    {
        self.author_types(vec![author_type])
    }

    /// Set multiple author types in the search.
    ///
    /// **Note**: This will replace all existing author types. Use `Self::add_author_types()` to keep existing author types.
    pub fn author_types(self, author_types: Vec<AuthorType>) -> (r: Self)
        ensures
            within_caps(r@),
            r@ == (MessageQueryView { author_types: author_types@, ..self@ }),
    {
        let mut q = self;
        proof {
            use_type_invariant(&q);
        }
        q.author_types = author_types;
        q
    }

    /// Add an author to the search.
    ///
    /// **Note**: This will keep all existing authors. Use `Self::author_id()` to replace existing authors.
    pub fn add_author_id(self, user_id: UserId) -> (r: Self)
        ensures
            within_caps(r@),
            r@ == (MessageQueryView { author_ids: self@.author_ids.push(user_id), ..self@ }),
    {
        let mut q = self;
        proof {
            use_type_invariant(&q);
        }
        let mut list = q.author_ids;
        list.push(user_id);
        q.author_ids = list;
        q
    }

    /// Add multiple authors to the search.
    ///
    /// **Note**: This will keep all existing authors. Use `Self::author_ids()` to replace existing authors.
    pub fn add_author_ids(self, user_ids: Vec<UserId>) -> (r: Self)
        ensures
            within_caps(r@),
            r@ == (MessageQueryView { author_ids: self@.author_ids + user_ids@, ..self@ }),
    {
        let mut q = self;
        proof {
            use_type_invariant(&q);
        }
        let mut more = user_ids;
        let mut list = q.author_ids;
        list.append(&mut more);
        q.author_ids = list;
        q
    }

    /// Set an author in the search.
    ///
    /// **Note**: This will replace all existing authors. Use `Self::add_author_id()` to keep existing authors.
    pub fn author_id(self, user_id: UserId) -> (r: Self)
        ensures
            within_caps(r@),
            r@ == (MessageQueryView { author_ids: seq![user_id], ..self@ }),
    {
        self.author_ids(vec![user_id])
    }

    /// Set multiple authors in the search.
    ///
    /// **Note**: This will replace all existing authors. Use `Self::add_author_ids()` to keep existing authors.
    pub fn author_ids(self, user_ids: Vec<UserId>) -> (r: Self)
        ensures
            within_caps(r@),
            r@ == (MessageQueryView { author_ids: user_ids@, ..self@ }),
    {
        let mut q = self;
        proof {
            use_type_invariant(&q);
        }
        q.author_ids = user_ids;
        q
    }

    /// Add a user mentioned to the search.
    ///
    /// **Note**: This will keep all existing users mentioned. Use `Self::user_mention()` to replace existing users mentioned.
    pub fn add_user_mention(self, user_id: UserId) -> (r: Self)
        ensures
            within_caps(r@),
            r@ == (MessageQueryView { mention_user_ids: self@.mention_user_ids.push(user_id), ..self@ }),
    {
        let mut q = self;
        proof {
            use_type_invariant(&q);
        }
        let mut list = q.mention_user_ids;
        list.push(user_id);
        q.mention_user_ids = list;
        q
    }

    /// Add multiple users mentioned to the search.
    ///
    /// **Note**: This will keep all existing users mentioned. Use `Self::user_mentions()` to replace existing users mentioned.
    pub fn add_user_mentions(self, user_ids: Vec<UserId>) -> (r: Self)
        ensures
            within_caps(r@),
            r@ == (MessageQueryView { mention_user_ids: self@.mention_user_ids + user_ids@, ..self@ }),
    {
        let mut q = self;
        proof {
            use_type_invariant(&q);
        }
        let mut more = user_ids;
        let mut list = q.mention_user_ids;
        list.append(&mut more);
        q.mention_user_ids = list;
        q
    }

    /// Set a user mentioned in the search.
    ///
    /// **Note**: This will replace all existing users mentioned. Use `Self::add_user_mention()` to keep existing users mentioned.
    pub fn user_mention(self, user_id: UserId) -> (r: Self)
        ensures
            within_caps(r@),
            r@ == (MessageQueryView { mention_user_ids: seq![user_id], ..self@ }),
    {
        self.user_mentions(vec![user_id])
    }

    /// Set multiple users mentioned in the search.
    ///
    /// **Note**: This will replace all existing users mentioned. Use `Self::add_user_mentions()` to keep existing users mentioned.
    pub fn user_mentions(self, user_ids: Vec<UserId>) -> (r: Self)
        ensures
            within_caps(r@),
            r@ == (MessageQueryView { mention_user_ids: user_ids@, ..self@ }),
    {
        let mut q = self;
        proof {
            use_type_invariant(&q);
        }
        q.mention_user_ids = user_ids;
        q
    }

    /// Add a role mentioned to the search.
    ///
    /// **Note**: This will keep all existing roles mentioned. Use `Self::role_mention()` to replace existing roles mentioned.
    pub fn add_role_mention(self, role_id: RoleId) -> (r: Self)
        ensures
            within_caps(r@),
            r@ == (MessageQueryView { mention_role_ids: self@.mention_role_ids.push(role_id), ..self@ }),
    {
        let mut q = self;
        proof {
            use_type_invariant(&q);
        }
        let mut list = q.mention_role_ids;
        list.push(role_id);
        q.mention_role_ids = list;
        q
    }

    /// Add multiple roles mentioned to the search.
    ///
    /// **Note**: This will keep all existing roles mentioned. Use `Self::role_mentions()` to replace existing roles mentioned.
    pub fn add_role_mentions(self, role_ids: Vec<RoleId>) -> (r: Self)
        ensures
            within_caps(r@),
            r@ == (MessageQueryView { mention_role_ids: self@.mention_role_ids + role_ids@, ..self@ }),
    {
        let mut q = self;
        proof {
            use_type_invariant(&q);
        }
        let mut more = role_ids;
        let mut list = q.mention_role_ids;
        list.append(&mut more);
        q.mention_role_ids = list;
        q
    }

    /// Set a role mentioned in the search.
    ///
    /// **Note**: This will replace all existing roles mentioned. Use `Self::add_role_mention()` to keep existing roles mentioned.
    pub fn role_mention(self, role_id: RoleId) -> (r: Self)
        ensures
            within_caps(r@),
            r@ == (MessageQueryView { mention_role_ids: seq![role_id], ..self@ }),
    {
        self.role_mentions(vec![role_id])
    }

    /// Set multiple roles mentioned in the search.
    ///
    /// **Note**: This will replace all existing roles mentioned. Use `Self::add_role_mentions()` to keep existing roles mentioned.
    pub fn role_mentions(self, role_ids: Vec<RoleId>) -> (r: Self)
        ensures
            within_caps(r@),
            r@ == (MessageQueryView { mention_role_ids: role_ids@, ..self@ }),
    {
        let mut q = self;
        proof {
            use_type_invariant(&q);
        }
        q.mention_role_ids = role_ids;
        q
    }

    /// Filter messages that do or do not mention `@everyone`.
    pub fn mention_everyone(self, mention_everyone: bool) -> (r: Self)
        ensures
            within_caps(r@),
            r@ == (MessageQueryView { mention_everyone: Some(mention_everyone), ..self@ }),
    {
        let mut q = self;
        proof {
            use_type_invariant(&q);
        }
        q.mention_everyone = Some(mention_everyone);
        q
    }

    /// Add a user replied to to the search.
    ///
    /// **Note**: This will keep all existing users replied to. Use `Self::user_replied_to()` to replace existing users replied to.
    pub fn add_user_replied_to(self, user_replied_to: UserId) -> (r: Self)
        ensures
            within_caps(r@),
            r@ == (MessageQueryView { replied_to_user_ids: self@.replied_to_user_ids.push(user_replied_to), ..self@ }),
    {
        let mut q = self;
        proof {
            use_type_invariant(&q);
        }
        let mut list = q.replied_to_user_ids;
        list.push(user_replied_to);
        q.replied_to_user_ids = list;
        q
    }

    /// Add multiple users replied to to the search.
    ///
    /// **Note**: This will keep all existing users replied to. Use `Self::users_replied_to()` to replace existing users replied to.
    pub fn add_users_replied_to(self, users_replied_to: Vec<UserId>) -> (r: Self)
        ensures
            within_caps(r@),
            r@ == (MessageQueryView { replied_to_user_ids: self@.replied_to_user_ids + users_replied_to@, ..self@ }),
    {
        let mut q = self;
        proof {
            use_type_invariant(&q);
        }
        let mut more = users_replied_to;
        let mut list = q.replied_to_user_ids;
        list.append(&mut more);
        q.replied_to_user_ids = list;
        q
    }

    /// Set a user replied to in the search.
    ///
    /// **Note**: This will replace all existing users replied to. Use `Self::add_user_replied_to()` to keep existing users replied to.
    pub fn user_replied_to(self, user_replied_to: UserId) -> (r: Self)
        ensures
            within_caps(r@),
            r@ == (MessageQueryView { replied_to_user_ids: seq![user_replied_to], ..self@ }),
    {
        self.users_replied_to(vec![user_replied_to])
    }

    /// Set multiple users replied to in the search.
    ///
    /// **Note**: This will replace all existing users replied to. Use `Self::add_users_replied_to()` to keep existing users replied to.
    pub fn users_replied_to(self, users_replied_to: Vec<UserId>) -> (r: Self)
        ensures
            within_caps(r@),
            r@ == (MessageQueryView { replied_to_user_ids: users_replied_to@, ..self@ }),
    {
        let mut q = self;
        proof {
            use_type_invariant(&q);
        }
        q.replied_to_user_ids = users_replied_to;
        q
    }

    /// Add a message replied to to the search.
    ///
    /// **Note**: This will keep all existing messages replied to. Use `Self::message_replied_to()` to replace existing messages replied to.
    pub fn add_message_replied_to(self, message_replied_to: MessageId) -> (r: Self)
        ensures
            within_caps(r@),
            r@ == (MessageQueryView { replied_to_message_ids: self@.replied_to_message_ids.push(message_replied_to), ..self@ }),
    {
        let mut q = self;
        proof {
            use_type_invariant(&q);
        }
        let mut list = q.replied_to_message_ids;
        list.push(message_replied_to);
        q.replied_to_message_ids = list;
        q
    }

    /// Add multiple messages replied to to the search.
    ///
    /// **Note**: This will keep all existing messages replied to. Use `Self::messages_replied_to()` to replace existing messages replied to.
    pub fn add_messages_replied_to(self, messages_replied_to: Vec<MessageId>) -> (r: Self)
        ensures
            within_caps(r@),
            r@ == (MessageQueryView { replied_to_message_ids: self@.replied_to_message_ids + messages_replied_to@, ..self@ }),
    {
        let mut q = self;
        proof {
            use_type_invariant(&q);
        }
        let mut more = messages_replied_to;
        let mut list = q.replied_to_message_ids;
        list.append(&mut more);
        q.replied_to_message_ids = list;
        q
    }

    /// Set a message replied to in the search.
    ///
    /// **Note**: This will replace all existing messages replied to. Use `Self::add_message_replied_to()` to keep existing messages replied to.
    pub fn message_replied_to(self, message_replied_to: MessageId) -> (r: Self)
        ensures
            within_caps(r@),
            r@ == (MessageQueryView { replied_to_message_ids: seq![message_replied_to], ..self@ }),
    {
        self.messages_replied_to(vec![message_replied_to])
    }

    /// Set multiple messages replied to in the search.
    ///
    /// **Note**: This will replace all existing messages replied to. Use `Self::add_messages_replied_to()` to keep existing messages replied to.
    pub fn messages_replied_to(self, messages_replied_to: Vec<MessageId>) -> (r: Self)
        ensures
            within_caps(r@),
            r@ == (MessageQueryView { replied_to_message_ids: messages_replied_to@, ..self@ }),
    {
        let mut q = self;
        proof {
            use_type_invariant(&q);
        }
        q.replied_to_message_ids = messages_replied_to;
        q
    }

    /// Filter messages by whether they are or are not pinned.
    pub fn pinned(self, pinned: bool) -> (r: Self)
        ensures
            within_caps(r@),
            r@ == (MessageQueryView { pinned: Some(pinned), ..self@ }),
    {
        let mut q = self;
        proof {
            use_type_invariant(&q);
        }
        q.pinned = Some(pinned);
        q
    }

    /// Add an item the message has to the search.
    ///
    /// **Note**: This will keep all existing items the message has. Use `Self::message_has_item()` to replace existing items the message has.
    pub fn add_message_has_item(self, has_item: SearchHas) -> (r: Self)
        ensures
            within_caps(r@),
            r@ == (MessageQueryView { has: self@.has.push(has_item), ..self@ }),
    {
        let mut q = self;
        proof {
            use_type_invariant(&q);
        }
        let mut list = q.has;
        list.push(has_item);
        q.has = list;
        q
    }

    /// Add multiple items the message has to the search.
    ///
    /// **Note**: This will keep all existing items the message has. Use `Self::message_has_items()` to replace existing items the message has.
    pub fn add_message_has_items(self, has_items: Vec<SearchHas>) -> (r: Self)
        ensures
            within_caps(r@),
            r@ == (MessageQueryView { has: self@.has + has_items@, ..self@ }),
    {
        let mut q = self;
        proof {
            use_type_invariant(&q);
        }
        let mut more = has_items;
        let mut list = q.has;
        list.append(&mut more);
        q.has = list;
        q
    }

    /// Set an item the message has in the search.
    ///
    /// **Note**: This will replace all existing items the message has. Use `Self::add_message_has_item()` to keep existing items the message has.
    pub fn message_has_item(self, has_item: SearchHas) -> (r: Self)
        ensures
            within_caps(r@),
            r@ == (MessageQueryView { has: seq![has_item], ..self@ }),
    {
        self.message_has_items(vec![has_item])
    }

    /// Set multiple items the message has in the search.
    ///
    /// **Note**: This will replace all existing items the message has. Use `Self::add_message_has_items()` to keep existing items the message has.
    pub fn message_has_items(self, has_items: Vec<SearchHas>) -> (r: Self)
        ensures
            within_caps(r@),
            r@ == (MessageQueryView { has: has_items@, ..self@ }),
    {
        let mut q = self;
        proof {
            use_type_invariant(&q);
        }
        q.has = has_items;
        q
    }

    /// Add an embed type the message has to the search.
    ///
    /// **Note**: This will keep all existing embed types the message has. Use `Self::embed_type()` to replace existing embed types the message has.
    pub fn add_embed_type(self, embed_type: SearchEmbed) -> (r: Self)
        ensures
            within_caps(r@),
            r@ == (MessageQueryView { embed_types: self@.embed_types.push(embed_type), ..self@ }),
    {
        let mut q = self;
        proof {
            use_type_invariant(&q);
        }
        let mut list = q.embed_types;
        list.push(embed_type);
        q.embed_types = list;
        q
    }

    /// Add multiple embed types the message has to the search.
    ///
    /// **Note**: This will keep all existing embed types the message has. Use `Self::embed_types()` to replace existing embed types the message has.
    pub fn add_embed_types(self, embed_types: Vec<SearchEmbed>) -> (r: Self)
        ensures
            within_caps(r@),
            r@ == (MessageQueryView { embed_types: self@.embed_types + embed_types@, ..self@ }),
    {
        let mut q = self;
        proof {
            use_type_invariant(&q);
        }
        let mut more = embed_types;
        let mut list = q.embed_types;
        list.append(&mut more);
        q.embed_types = list;
        q
    }

    /// Set an embed type the message has in the search.
    ///
    /// **Note**: This will replace all existing embed types the message has. Use `Self::add_embed_type()` to keep existing embed types the message has.
    pub fn embed_type(self, embed_type: SearchEmbed) -> (r: Self)
        ensures
            within_caps(r@),
            r@ == (MessageQueryView { embed_types: seq![embed_type], ..self@ }),
    {
        self.embed_types(vec![embed_type])
    }

    /// Set multiple embed types the message has in the search.
    ///
    /// **Note**: This will replace all existing embed types the message has. Use `Self::add_embed_types()` to keep existing embed types the message has.
    pub fn embed_types(self, embed_types: Vec<SearchEmbed>) -> (r: Self)
        ensures
            within_caps(r@),
            r@ == (MessageQueryView { embed_types: embed_types@, ..self@ }),
    {
        let mut q = self;
        proof {
            use_type_invariant(&q);
        }
        q.embed_types = embed_types;
        q
    }

    /// Add an embed provider (case-sensitive) the message has to the search.
    ///
    /// **Note**: This will keep all existing embed providers (case-sensitive) the message has. Use `Self::embed_provider()` to replace existing embed providers (case-sensitive) the message has.
    pub fn add_embed_provider(self, embed_provider: &str) -> (r: Self)
        ensures
            within_caps(r@),
            r@ == (MessageQueryView { embed_providers: self@.embed_providers.push(embed_provider@), ..self@ }),
    {
        let mut q = self;
        proof {
            use_type_invariant(&q);
        }
        let ghost before = q.embed_providers@;
        let mut list = q.embed_providers;
        list.push(String::from_str(embed_provider));
        q.embed_providers = list;
        proof {
            assert(strings_view(q.embed_providers@) =~= strings_view(before).push(embed_provider@));
        }
        q
    }

    /// Add multiple embed providers (case-sensitive) the message has to the search.
    ///
    /// **Note**: This will keep all existing embed providers (case-sensitive) the message has. Use `Self::embed_providers()` to replace existing embed providers (case-sensitive) the message has.
    pub fn add_embed_providers(self, embed_providers: Vec<&str>) -> (r: Self)
        ensures
            within_caps(r@),
            r@ == (MessageQueryView { embed_providers: self@.embed_providers + strs_view(embed_providers@), ..self@ }),
    {
        let mut q = self;
        proof {
            use_type_invariant(&q);
        }
        let ghost before = q.embed_providers@;
        let mut more = to_strings(embed_providers);
        let mut list = q.embed_providers;
        list.append(&mut more);
        q.embed_providers = list;
        proof {
            assert(strings_view(q.embed_providers@) =~= strings_view(before) + strs_view(embed_providers@));
        }
        q
    }

    /// Set an embed provider (case-sensitive) the message has in the search.
    ///
    /// **Note**: This will replace all existing embed providers (case-sensitive) the message has. Use `Self::add_embed_provider()` to keep existing embed providers (case-sensitive) the message has.
    pub fn embed_provider(self, embed_provider: &str) -> (r: Self)
        ensures
            within_caps(r@),
            r@ == (MessageQueryView { embed_providers: seq![embed_provider@], ..self@ }),
    {
        let r = self.embed_providers(vec![embed_provider]);
        proof {
            assert(strs_view(seq![embed_provider]) =~= seq![embed_provider@]);
        }
        r
    }

    /// Set multiple embed providers (case-sensitive) the message has in the search.
    ///
    /// **Note**: This will replace all existing embed providers (case-sensitive) the message has. Use `Self::add_embed_providers()` to keep existing embed providers (case-sensitive) the message has.
    pub fn embed_providers(self, embed_providers: Vec<&str>) -> (r: Self)
        ensures
            within_caps(r@),
            r@ == (MessageQueryView { embed_providers: strs_view(embed_providers@), ..self@ }),
    {
        let mut q = self;
        proof {
            use_type_invariant(&q);
        }
        q.embed_providers = to_strings(embed_providers);
        q
    }

    /// Add a hostname of a link in the message to the search.
    ///
    /// **Note**: This will keep all existing hostnames of a link in the message. Use `Self::link_hostname()` to replace existing hostnames of a link in the message.
    pub fn add_link_hostname(self, link_hostname: &str) -> (r: Self)
        ensures
            within_caps(r@),
            r@ == (MessageQueryView { link_hostnames: self@.link_hostnames.push(link_hostname@), ..self@ }),
    {
        let mut q = self;
        proof {
            use_type_invariant(&q);
        }
        let ghost before = q.link_hostnames@;
        let mut list = q.link_hostnames;
        list.push(String::from_str(link_hostname));
        q.link_hostnames = list;
        proof {
            assert(strings_view(q.link_hostnames@) =~= strings_view(before).push(link_hostname@));
        }
        q
    }

    /// Add multiple hostnames of a link in the message to the search.
    ///
    /// **Note**: This will keep all existing hostnames of a link in the message. Use `Self::link_hostnames()` to replace existing hostnames of a link in the message.
    pub fn add_link_hostnames(self, link_hostnames: Vec<&str>) -> (r: Self)
        ensures
            within_caps(r@),
            r@ == (MessageQueryView { link_hostnames: self@.link_hostnames + strs_view(link_hostnames@), ..self@ }),
    {
        let mut q = self;
        proof {
            use_type_invariant(&q);
        }
        let ghost before = q.link_hostnames@;
        let mut more = to_strings(link_hostnames);
        let mut list = q.link_hostnames;
        list.append(&mut more);
        q.link_hostnames = list;
        proof {
            assert(strings_view(q.link_hostnames@) =~= strings_view(before) + strs_view(link_hostnames@));
        }
        q
    }

    /// Set a hostname of a link in the message in the search.
    ///
    /// **Note**: This will replace all existing hostnames of a link in the message. Use `Self::add_link_hostname()` to keep existing hostnames of a link in the message.
    pub fn link_hostname(self, link_hostname: &str) -> (r: Self)
        ensures
            within_caps(r@),
            r@ == (MessageQueryView { link_hostnames: seq![link_hostname@], ..self@ }),
    {
        let r = self.link_hostnames(vec![link_hostname]);
        proof {
            assert(strs_view(seq![link_hostname]) =~= seq![link_hostname@]);
        }
        r
    }

    /// Set multiple hostnames of a link in the message in the search.
    ///
    /// **Note**: This will replace all existing hostnames of a link in the message. Use `Self::add_link_hostnames()` to keep existing hostnames of a link in the message.
    pub fn link_hostnames(self, link_hostnames: Vec<&str>) -> (r: Self)
        ensures
            within_caps(r@),
            r@ == (MessageQueryView { link_hostnames: strs_view(link_hostnames@), ..self@ }),
    {
        let mut q = self;
        proof {
            use_type_invariant(&q);
        }
        q.link_hostnames = to_strings(link_hostnames);
        q
    }

    /// Add a file name of an attachment in the message to the search.
    ///
    /// **Note**: This will keep all existing file names of an attachment in the message. Use `Self::attachment_filename()` to replace existing file names of an attachment in the message.
    pub fn add_attachment_filename(self, attachment_filename: &str) -> (r: Self)
        ensures
            within_caps(r@),
            r@ == (MessageQueryView { attachment_filenames: self@.attachment_filenames.push(attachment_filename@), ..self@ }),
    {
        let mut q = self;
        proof {
            use_type_invariant(&q);
        }
        let ghost before = q.attachment_filenames@;
        let mut list = q.attachment_filenames;
        list.push(String::from_str(attachment_filename));
        q.attachment_filenames = list;
        proof {
            assert(strings_view(q.attachment_filenames@) =~= strings_view(before).push(attachment_filename@));
        }
        q
    }

    /// Add multiple file names of an attachment in the message to the search.
    ///
    /// **Note**: This will keep all existing file names of an attachment in the message. Use `Self::attachment_filenames()` to replace existing file names of an attachment in the message.
    pub fn add_attachment_filenames(self, attachment_filenames: Vec<&str>) -> (r: Self)
        ensures
            within_caps(r@),
            r@ == (MessageQueryView { attachment_filenames: self@.attachment_filenames + strs_view(attachment_filenames@), ..self@ }),
    {
        let mut q = self;
        proof {
            use_type_invariant(&q);
        }
        let ghost before = q.attachment_filenames@;
        let mut more = to_strings(attachment_filenames);
        let mut list = q.attachment_filenames;
        list.append(&mut more);
        q.attachment_filenames = list;
        proof {
            assert(strings_view(q.attachment_filenames@) =~= strings_view(before) + strs_view(attachment_filenames@));
        }
        q
    }

    /// Set a file name of an attachment in the message in the search.
    ///
    /// **Note**: This will replace all existing file names of an attachment in the message. Use `Self::add_attachment_filename()` to keep existing file names of an attachment in the message.
    pub fn attachment_filename(self, attachment_filename: &str) -> (r: Self)
        ensures
            within_caps(r@),
            r@ == (MessageQueryView { attachment_filenames: seq![attachment_filename@], ..self@ }),
    {
        let r = self.attachment_filenames(vec![attachment_filename]);
        proof {
            assert(strs_view(seq![attachment_filename]) =~= seq![attachment_filename@]);
        }
        r
    }

    /// Set multiple file names of an attachment in the message in the search.
    ///
    /// **Note**: This will replace all existing file names of an attachment in the message. Use `Self::add_attachment_filenames()` to keep existing file names of an attachment in the message.
    pub fn attachment_filenames(self, attachment_filenames: Vec<&str>) -> (r: Self)
        ensures
            within_caps(r@),
            r@ == (MessageQueryView { attachment_filenames: strs_view(attachment_filenames@), ..self@ }),
    {
        let mut q = self;
        proof {
            use_type_invariant(&q);
        }
        q.attachment_filenames = to_strings(attachment_filenames);
        q
    }

    /// Add a file extension of an attachment in the message to the search.
    ///
    /// **Note**: This will keep all existing file extension of an attachment in the message. Use `Self::attachment_extension()` to replace existing file extension of an attachment in the message.
    pub fn add_attachment_extension(self, attachment_extension: &str) -> (r: Self)
        ensures
            within_caps(r@),
            r@ == (MessageQueryView { attachment_extensions: self@.attachment_extensions.push(attachment_extension@), ..self@ }),
    {
        let mut q = self;
        proof {
            use_type_invariant(&q);
        }
        let ghost before = q.attachment_extensions@;
        let mut list = q.attachment_extensions;
        list.push(String::from_str(attachment_extension));
        q.attachment_extensions = list;
        proof {
            assert(strings_view(q.attachment_extensions@) =~= strings_view(before).push(attachment_extension@));
        }
        q
    }

    /// Add multiple file extension of an attachment in the message to the search.
    ///
    /// **Note**: This will keep all existing file extension of an attachment in the message. Use `Self::attachment_extensions()` to replace existing file extension of an attachment in the message.
    pub fn add_attachment_extensions(self, attachment_extensions: Vec<&str>) -> (r: Self)
        ensures
            within_caps(r@),
            r@ == (MessageQueryView { attachment_extensions: self@.attachment_extensions + strs_view(attachment_extensions@), ..self@ }),
    {
        let mut q = self;
        proof {
            use_type_invariant(&q);
        }
        let ghost before = q.attachment_extensions@;
        let mut more = to_strings(attachment_extensions);
        let mut list = q.attachment_extensions;
        list.append(&mut more);
        q.attachment_extensions = list;
        proof {
            assert(strings_view(q.attachment_extensions@) =~= strings_view(before) + strs_view(attachment_extensions@));
        }
        q
    }

    /// Set a file extension of an attachment in the message in the search.
    ///
    /// **Note**: This will replace all existing file extension of an attachment in the message. Use `Self::add_attachment_extension()` to keep existing file extension of an attachment in the message.
    pub fn attachment_extension(self, attachment_extension: &str) -> (r: Self)
        ensures
            within_caps(r@),
            r@ == (MessageQueryView { attachment_extensions: seq![attachment_extension@], ..self@ }),
    {
        let r = self.attachment_extensions(vec![attachment_extension]);
        proof {
            assert(strs_view(seq![attachment_extension]) =~= seq![attachment_extension@]);
        }
        r
    }

    /// Set multiple file extension of an attachment in the message in the search.
    ///
    /// **Note**: This will replace all existing file extension of an attachment in the message. Use `Self::add_attachment_extensions()` to keep existing file extension of an attachment in the message.
    pub fn attachment_extensions(self, attachment_extensions: Vec<&str>) -> (r: Self)
        ensures
            within_caps(r@),
            r@ == (MessageQueryView { attachment_extensions: strs_view(attachment_extensions@), ..self@ }),
    {
        let mut q = self;
        proof {
            use_type_invariant(&q);
        }
        q.attachment_extensions = to_strings(attachment_extensions);
        q
    }

    /// Sort by message creation time or by relevance.
    ///
    /// **Note**: If not specified, Discord currently defaults to `MessageQuerySort::Descending`.
    pub fn sort(self, sort: MessageQuerySort) -> (r: Self)
        ensures
            within_caps(r@),
            r@ == (MessageQueryView {
                sort_by: Some(sort_mode_of(sort)),
                sort_order: sort_order_of(sort),
                ..self@
            }),
    {
        let mut q = self;
        proof {
            use_type_invariant(&q);
        }
        match sort {
            MessageQuerySort::Ascending => {
                q.sort_by = Some(SearchSortMode::Timestamp);
                q.sort_order = Some(SearchSortOrder::Ascending);
            },
            MessageQuerySort::Descending => {
                q.sort_by = Some(SearchSortMode::Timestamp);
                q.sort_order = Some(SearchSortOrder::Descending);
            },
            MessageQuerySort::ByRelevance => {
                q.sort_by = Some(SearchSortMode::Relevance);
                q.sort_order = None;
            },
        }
        q
    }

    /// Whether to include results from age-restricted channels.
    ///
    /// **Note**: If not specified, Discord currently defaults this to false.
    pub fn include_nsfw(self, include_nsfw: bool) -> (r: Self)
        ensures
            within_caps(r@),
            r@ == (MessageQueryView { include_nsfw: Some(include_nsfw), ..self@ }),
    {
        let mut q = self;
        proof {
            use_type_invariant(&q);
        }
        q.include_nsfw = Some(include_nsfw);
        q
    }

    /// The query-string parameters of this search, in the order in which they are sent.
    ///
    /// A parameter that is not set is left out, and a list gives its key once per value
    /// (Discord's encoding of arrays); booleans are written `"1"` and `"0"`.
    pub fn into_param_pairs(self) -> (r: Vec<(&'static str, String)>)
        ensures
            within_caps(self@),
            params_view(r@) == param_pairs(self@),
    {
        proof {
            use_type_invariant(&self);
        }
        let mut params: Vec<(&'static str, String)> = Vec::new();
        push_optional(&mut params, "limit", &self.limit);
        push_optional(&mut params, "offset", &self.offset);
        push_optional(&mut params, "max_id", &self.max_id);
        push_optional(&mut params, "min_id", &self.min_id);
        push_optional(&mut params, "slop", &self.slop);
        push_optional(&mut params, "content", &self.content);
        push_list(&mut params, "channel_id", &self.channel_ids);
        push_list(&mut params, "author_type", &self.author_types);
        push_list(&mut params, "author_id", &self.author_ids);
        push_list(&mut params, "mentions", &self.mention_user_ids);
        push_list(&mut params, "mentions_role_id", &self.mention_role_ids);
        push_optional(&mut params, "mention_everyone", &self.mention_everyone);
        push_list(&mut params, "replied_to_user_id", &self.replied_to_user_ids);
        push_list(&mut params, "replied_to_message_id", &self.replied_to_message_ids);
        push_optional(&mut params, "pinned", &self.pinned);
        push_list(&mut params, "has", &self.has);
        push_list(&mut params, "embed_type", &self.embed_types);
        push_list(&mut params, "embed_provider", &self.embed_providers);
        push_list(&mut params, "link_hostname", &self.link_hostnames);
        push_list(&mut params, "attachment_filename", &self.attachment_filenames);
        push_list(&mut params, "attachment_extension", &self.attachment_extensions);
        push_optional(&mut params, "sort_by", &self.sort_by);
        push_optional(&mut params, "sort_order", &self.sort_order);
        push_optional(&mut params, "include_nsfw", &self.include_nsfw);
        proof {
            assert(texts(self.embed_providers@) =~= strings_view(self.embed_providers@));
            assert(texts(self.link_hostnames@) =~= strings_view(self.link_hostnames@));
            assert(texts(self.attachment_filenames@) =~= strings_view(self.attachment_filenames@));
            assert(texts(self.attachment_extensions@) =~= strings_view(self.attachment_extensions@));
            assert(params_view(params@) =~= param_pairs(self@));
        }
        params
    }
}

/// What a sort choice sorts the results by.
pub open spec fn sort_mode_of(sort: MessageQuerySort) -> SearchSortMode {
    match sort {
        MessageQuerySort::ByRelevance => SearchSortMode::Relevance,
        _ => SearchSortMode::Timestamp,
    }
}

/// In which direction a sort choice sorts the results, where it says one.
pub open spec fn sort_order_of(sort: MessageQuerySort) -> Option<SearchSortOrder> {
    match sort {
        MessageQuerySort::Ascending => Some(SearchSortOrder::Ascending),
        MessageQuerySort::Descending => Some(SearchSortOrder::Descending),
        MessageQuerySort::ByRelevance => None,
    }
}

} // verus!
