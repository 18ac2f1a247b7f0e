use vstd::prelude::*;

use crate::decimal::{decimal, decimal_string};
use crate::ids::{GenericChannelId, MessageId, RoleId, UserId};
use crate::kinds::{
    author_type_text, search_embed_text, search_has_text, sort_mode_text, sort_order_text,
    AuthorType, SearchEmbed, SearchHas, SearchSortMode, SearchSortOrder,
};
use crate::decimal::{digits_value, lemma_decimal_round_trip};
use crate::query::{empty_query, MessageQueryView};

verus! {

/// A value that can stand in a request's query string.
pub trait QueryValue {
    /// How the value is written in the query string.
    spec fn query_text(&self) -> Seq<char>;

    /// Writes the value as it stands in the query string.
    fn query_value(&self) -> (r: String)
        ensures
            r@ == self.query_text(),
    ;
}

/// How a boolean is written in a query string: Discord reads `"1"` as true and `"0"`
/// as false.
pub open spec fn bool_text(value: bool) -> Seq<char> {
    if value {
        "1"@
    } else {
        "0"@
    }
}

/// Converts a boolean to a querystring value for Discord.
pub fn boolean_value(value: bool) -> (r: &'static str)
    ensures
        r@ == bool_text(value),
{
    if value {
        "1"
    } else {
        "0"
    }
}

impl QueryValue for bool {
    open spec fn query_text(&self) -> Seq<char> {
        bool_text(*self)
    }

    fn query_value(&self) -> (r: String) {
        String::from_str(boolean_value(*self))
    }
}

impl QueryValue for u8 {
    open spec fn query_text(&self) -> Seq<char> {
        decimal(*self as nat)
    }

    fn query_value(&self) -> (r: String) {
        decimal_string(*self as u64)
    }
}

impl QueryValue for u16 {
    open spec fn query_text(&self) -> Seq<char> {
        decimal(*self as nat)
    }

    fn query_value(&self) -> (r: String) {
        decimal_string(*self as u64)
    }
}

impl QueryValue for MessageId {
    open spec fn query_text(&self) -> Seq<char> {
        decimal(self.id as nat)
    }

    fn query_value(&self) -> (r: String) {
        decimal_string(self.id)
    }
}

impl QueryValue for GenericChannelId {
    open spec fn query_text(&self) -> Seq<char> {
        decimal(self.id as nat)
    }

    fn query_value(&self) -> (r: String) {
        decimal_string(self.id)
    }
}

impl QueryValue for UserId {
    open spec fn query_text(&self) -> Seq<char> {
        decimal(self.id as nat)
    }

    fn query_value(&self) -> (r: String) {
        decimal_string(self.id)
    }
}

impl QueryValue for RoleId {
    open spec fn query_text(&self) -> Seq<char> {
        decimal(self.id as nat)
    }

    fn query_value(&self) -> (r: String) {
        decimal_string(self.id)
    }
}

impl QueryValue for AuthorType {
    open spec fn query_text(&self) -> Seq<char> {
        author_type_text(*self)
    }

    fn query_value(&self) -> (r: String) {
        String::from_str(self.as_str())
    }
}

impl QueryValue for SearchHas {
    open spec fn query_text(&self) -> Seq<char> {
        search_has_text(*self)
    }

    fn query_value(&self) -> (r: String) {
        String::from_str(self.as_str())
    }
}

impl QueryValue for SearchEmbed {
    open spec fn query_text(&self) -> Seq<char> {
        search_embed_text(*self)
    }

    fn query_value(&self) -> (r: String) {
        String::from_str(self.as_str())
    }
}

impl QueryValue for SearchSortMode {
    open spec fn query_text(&self) -> Seq<char> {
        sort_mode_text(*self)
    }

    fn query_value(&self) -> (r: String) {
        String::from_str(self.as_str())
    }
}

impl QueryValue for SearchSortOrder {
    open spec fn query_text(&self) -> Seq<char> {
        sort_order_text(*self)
    }

    fn query_value(&self) -> (r: String) {
        String::from_str(self.as_str())
    }
}

impl QueryValue for String {
    open spec fn query_text(&self) -> Seq<char> {
        self@
    }

    fn query_value(&self) -> (r: String) {
        self.clone()
    }
}

/// A query-string parameter: its key and its value.
pub type Param = (Seq<char>, Seq<char>);

/// The keys and values of a list of parameters.
pub open spec fn params_view(p: Seq<(&'static str, String)>) -> Seq<Param> {
    p.map_values(|e: (&'static str, String)| (e.0@, e.1@))
}

/// How an optional value is written.
pub open spec fn opt_text<T: QueryValue>(o: Option<T>) -> Option<Seq<char>> {
    match o {
        Some(v) => Some(v.query_text()),
        None => None,
    }
}

/// How each value of a list is written.
pub open spec fn texts<T: QueryValue>(values: Seq<T>) -> Seq<Seq<char>> {
    values.map_values(|v: T| v.query_text())
}

/// The parameter that an optional value gives: none where it is not set.
pub open spec fn optional_param(key: Seq<char>, value: Option<Seq<char>>) -> Seq<Param> {
    match value {
        Some(v) => seq![(key, v)],
        None => Seq::empty(),
    }
}

/// The parameters that a list gives: the key repeated once per value, in the list's
/// order (Discord's encoding of arrays in a query string).
pub open spec fn list_params(key: Seq<char>, values: Seq<Seq<char>>) -> Seq<Param> {
    values.map_values(|v: Seq<char>| (key, v))
}

/// The query-string parameters of a message search, in the order in which they are sent.
pub open spec fn param_pairs(q: MessageQueryView) -> Seq<Param> {
    optional_param("limit"@, opt_text(q.limit))
        + optional_param("offset"@, opt_text(q.offset))
        + optional_param("max_id"@, opt_text(q.max_id))
        + optional_param("min_id"@, opt_text(q.min_id))
        + optional_param("slop"@, opt_text(q.slop))
        + optional_param("content"@, q.content)
        + list_params("channel_id"@, texts(q.channel_ids))
        + list_params("author_type"@, texts(q.author_types))
        + list_params("author_id"@, texts(q.author_ids))
        + list_params("mentions"@, texts(q.mention_user_ids))
        + list_params("mentions_role_id"@, texts(q.mention_role_ids))
        + optional_param("mention_everyone"@, opt_text(q.mention_everyone))
        + list_params("replied_to_user_id"@, texts(q.replied_to_user_ids))
        + list_params("replied_to_message_id"@, texts(q.replied_to_message_ids))
        + optional_param("pinned"@, opt_text(q.pinned))
        + list_params("has"@, texts(q.has))
        + list_params("embed_type"@, texts(q.embed_types))
        + list_params("embed_provider"@, q.embed_providers)
        + list_params("link_hostname"@, q.link_hostnames)
        + list_params("attachment_filename"@, q.attachment_filenames)
        + list_params("attachment_extension"@, q.attachment_extensions)
        + optional_param("sort_by"@, opt_text(q.sort_by))
        + optional_param("sort_order"@, opt_text(q.sort_order))
        + optional_param("include_nsfw"@, opt_text(q.include_nsfw))
}

/// Appends the parameter of an optional value, if it is set.
pub(crate) fn push_optional<T: QueryValue>(
    params: &mut Vec<(&'static str, String)>,
    key: &'static str,
    value: &Option<T>,
)
    ensures
        params_view(final(params)@) == params_view(old(params)@) + optional_param(
            key@,
            opt_text(*value),
        ),
{
    let ghost before = params@;
    match value {
        Some(v) => {
            let text = v.query_value();
            params.push((key, text));
            proof {
                assert(params_view(params@) =~= params_view(before) + seq![(key@, text@)]);
            }
        },
        None => {
            proof {
                assert(params_view(params@) =~= params_view(before) + Seq::<Param>::empty());
            }
        },
    }
}

/// Appends one parameter per value of a list, in the list's order.
pub(crate) fn push_list<T: QueryValue>(
    params: &mut Vec<(&'static str, String)>,
    key: &'static str,
    values: &Vec<T>,
)
    ensures
        params_view(final(params)@) == params_view(old(params)@) + list_params(
            key@,
            texts(values@),
        ),
{
    let ghost start = params@;
    let n = values.len();
    for i in 0..n
        invariant
            n == values@.len(),
            params_view(params@) == params_view(start) + list_params(
                key@,
                texts(values@.take(i as int)),
            ),
    {
        let ghost before = params@;
        let text = values[i].query_value();
        params.push((key, text));
        proof {
            assert(texts(values@.take(i + 1)) =~= texts(values@.take(i as int)).push(
                values@[i as int].query_text(),
            ));
            assert(params_view(params@) =~= params_view(before).push((key@, text@)));
            assert(list_params(key@, texts(values@.take(i + 1))) =~= list_params(
                key@,
                texts(values@.take(i as int)),
            ).push((key@, text@)));
        }
    }
    proof {
        assert(values@.take(n as int) =~= values@);
    }
}

/// One where a value is set, none where it is not.
pub open spec fn opt_count<T>(o: Option<T>) -> nat {
    match o {
        Some(_) => 1,
        None => 0,
    }
}

/// How many parameters a query sends: one per set value and one per list entry.
pub open spec fn param_count(q: MessageQueryView) -> nat {
    opt_count(q.limit) + opt_count(q.offset) + opt_count(q.max_id) + opt_count(q.min_id)
        + opt_count(q.slop) + opt_count(q.content) + q.channel_ids.len() + q.author_types.len()
        + q.author_ids.len() + q.mention_user_ids.len() + q.mention_role_ids.len() + opt_count(
        q.mention_everyone,
    ) + q.replied_to_user_ids.len() + q.replied_to_message_ids.len() + opt_count(q.pinned)
        + q.has.len() + q.embed_types.len() + q.embed_providers.len() + q.link_hostnames.len()
        + q.attachment_filenames.len() + q.attachment_extensions.len() + opt_count(q.sort_by)
        + opt_count(q.sort_order) + opt_count(q.include_nsfw)
}

proof fn lemma_optional_param_len<T: QueryValue>(key: Seq<char>, o: Option<T>)
    ensures
        optional_param(key, opt_text(o)).len() == opt_count(o),
{
}

/// A query sends exactly one parameter per set value and one per list entry: nothing
/// that is unset is sent, and no list entry is merged or dropped.
pub proof fn lemma_param_count(q: MessageQueryView)
    ensures
        param_pairs(q).len() == param_count(q),
{
    lemma_optional_param_len("limit"@, q.limit);
    lemma_optional_param_len("offset"@, q.offset);
    lemma_optional_param_len("max_id"@, q.max_id);
    lemma_optional_param_len("min_id"@, q.min_id);
    lemma_optional_param_len("slop"@, q.slop);
    lemma_optional_param_len("mention_everyone"@, q.mention_everyone);
    lemma_optional_param_len("pinned"@, q.pinned);
    lemma_optional_param_len("sort_by"@, q.sort_by);
    lemma_optional_param_len("sort_order"@, q.sort_order);
    lemma_optional_param_len("include_nsfw"@, q.include_nsfw);
    assert(optional_param("content"@, q.content).len() == opt_count(q.content));
}

/// A query that filters nothing sends no parameter, so Discord applies its defaults.
pub proof fn lemma_empty_query_params()
    ensures
        param_pairs(empty_query()) == Seq::<Param>::empty(),
{
    lemma_param_count(empty_query());
}

/// The limit, when set, is the first parameter sent, and its value reads back as the
/// limit.
pub proof fn lemma_limit_param_reads_back(q: MessageQueryView, limit: u8)
    requires
        q.limit == Some(limit),
    ensures
        param_pairs(q).len() > 0,
        param_pairs(q)[0].0 == "limit"@,
        digits_value(param_pairs(q)[0].1) == limit,
{
    lemma_param_count(q);
    lemma_decimal_round_trip(limit as nat);
    let first = optional_param("limit"@, opt_text(q.limit));
    assert(first == seq![("limit"@, decimal(limit as nat))]);
    assert(param_pairs(q)[0] == first[0]);
}

} // verus!
