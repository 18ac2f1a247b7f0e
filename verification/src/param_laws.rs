use vstd::prelude::*;

use crate::decimal::{
    all_digits, canonical_digits, decimal, digits_value, lemma_decimal_canonical,
    lemma_decimal_round_trip,
};
use crate::ids::{GenericChannelId, MessageId, RoleId, UserId};
use crate::kinds::{
    author_type_text, search_embed_text, search_has_text, sort_mode_text, sort_order_text,
    AuthorType, SearchEmbed, SearchHas, SearchSortMode, SearchSortOrder,
};
use crate::params::{
    list_params, opt_text, optional_param, param_pairs, texts, Param, QueryValue,
};
use crate::query::MessageQueryView;

verus! {

/// The values of the parameters whose key is `key`, in the order in which they are sent.
pub open spec fn values_with_key(ps: Seq<Param>, key: Seq<char>) -> Seq<Seq<char>>
    decreases ps.len(),
{
    if ps.len() == 0 {
        Seq::empty()
    } else {
        let rest = values_with_key(ps.drop_last(), key);
        if ps.last().0 == key {
            rest.push(ps.last().1)
        } else {
            rest
        }
    }
}

/// One value where an optional value is set, none where it is not.
pub open spec fn opt_with<T>(o: Option<T>, f: spec_fn(T) -> Seq<char>) -> Seq<Seq<char>> {
    match o {
        Some(v) => seq![f(v)],
        None => Seq::empty(),
    }
}

spec fn opt_vals(v: Option<Seq<char>>) -> Seq<Seq<char>> {
    match v {
        Some(x) => seq![x],
        None => Seq::empty(),
    }
}

spec fn seg(k2: Seq<char>, k: Seq<char>, vs: Seq<Seq<char>>) -> Seq<Seq<char>> {
    if k2 == k {
        vs
    } else {
        Seq::empty()
    }
}

proof fn lemma_values_concat(a: Seq<Param>, b: Seq<Param>, k: Seq<char>)
    ensures
        values_with_key(a + b, k) == values_with_key(a, k) + values_with_key(b, k),
    decreases b.len(),
{
    if b.len() == 0 {
        assert(a + b =~= a);
        assert(values_with_key(a, k) + values_with_key(b, k) =~= values_with_key(a, k));
    } else {
        lemma_values_concat(a, b.drop_last(), k);
        assert((a + b).drop_last() =~= a + b.drop_last());
        assert((a + b).last() == b.last());
        if b.last().0 == k {
            assert(values_with_key(a, k) + values_with_key(b, k) =~= (values_with_key(a, k)
                + values_with_key(b.drop_last(), k)).push(b.last().1));
        } else {
            assert(values_with_key(a, k) + values_with_key(b, k) =~= values_with_key(a, k)
                + values_with_key(b.drop_last(), k));
        }
    }
}

proof fn lemma_values_list(k2: Seq<char>, vs: Seq<Seq<char>>, k: Seq<char>)
    ensures
        values_with_key(list_params(k2, vs), k) == seg(k2, k, vs),
    decreases vs.len(),
{
    if vs.len() == 0 {
        assert(list_params(k2, vs) =~= Seq::<Param>::empty());
        assert(seg(k2, k, vs) =~= Seq::<Seq<char>>::empty());
    } else {
        lemma_values_list(k2, vs.drop_last(), k);
        assert(list_params(k2, vs).drop_last() =~= list_params(k2, vs.drop_last()));
        if k2 == k {
            assert(vs =~= vs.drop_last().push(vs.last()));
        }
    }
}

proof fn lemma_values_optional(k2: Seq<char>, v: Option<Seq<char>>, k: Seq<char>)
    ensures
        values_with_key(optional_param(k2, v), k) == seg(k2, k, opt_vals(v)),
{
    match v {
        Some(x) => {
            let ps = optional_param(k2, v);
            assert(ps.drop_last() =~= Seq::<Param>::empty());
            assert(values_with_key(ps.drop_last(), k) == Seq::<Seq<char>>::empty());
            assert(ps.last() == (k2, x));
            if k2 == k {
                assert(seq![x] =~= Seq::<Seq<char>>::empty().push(x));
            }
        },
        None => {
            assert(seg(k2, k, opt_vals(v)) =~= Seq::<Seq<char>>::empty());
        },
    }
}

spec fn keyed_values(q: MessageQueryView, k: Seq<char>) -> Seq<Seq<char>> {
    seg("limit"@, k, opt_vals(opt_text(q.limit)))
        + seg("offset"@, k, opt_vals(opt_text(q.offset)))
        + seg("max_id"@, k, opt_vals(opt_text(q.max_id)))
        + seg("min_id"@, k, opt_vals(opt_text(q.min_id)))
        + seg("slop"@, k, opt_vals(opt_text(q.slop)))
        + seg("content"@, k, opt_vals(q.content))
        + seg("channel_id"@, k, texts(q.channel_ids))
        + seg("author_type"@, k, texts(q.author_types))
        + seg("author_id"@, k, texts(q.author_ids))
        + seg("mentions"@, k, texts(q.mention_user_ids))
        + seg("mentions_role_id"@, k, texts(q.mention_role_ids))
        + seg("mention_everyone"@, k, opt_vals(opt_text(q.mention_everyone)))
        + seg("replied_to_user_id"@, k, texts(q.replied_to_user_ids))
        + seg("replied_to_message_id"@, k, texts(q.replied_to_message_ids))
        + seg("pinned"@, k, opt_vals(opt_text(q.pinned)))
        + seg("has"@, k, texts(q.has))
        + seg("embed_type"@, k, texts(q.embed_types))
        + seg("embed_provider"@, k, q.embed_providers)
        + seg("link_hostname"@, k, q.link_hostnames)
        + seg("attachment_filename"@, k, q.attachment_filenames)
        + seg("attachment_extension"@, k, q.attachment_extensions)
        + seg("sort_by"@, k, opt_vals(opt_text(q.sort_by)))
        + seg("sort_order"@, k, opt_vals(opt_text(q.sort_order)))
        + seg("include_nsfw"@, k, opt_vals(opt_text(q.include_nsfw)))
}

proof fn lemma_keyed_values(q: MessageQueryView, k: Seq<char>)
    ensures
        values_with_key(param_pairs(q), k) == keyed_values(q, k),
{
    lemma_values_optional("limit"@, opt_text(q.limit), k);
    lemma_values_optional("offset"@, opt_text(q.offset), k);
    lemma_values_optional("max_id"@, opt_text(q.max_id), k);
    lemma_values_optional("min_id"@, opt_text(q.min_id), k);
    lemma_values_optional("slop"@, opt_text(q.slop), k);
    lemma_values_optional("content"@, q.content, k);
    lemma_values_list("channel_id"@, texts(q.channel_ids), k);
    lemma_values_list("author_type"@, texts(q.author_types), k);
    lemma_values_list("author_id"@, texts(q.author_ids), k);
    lemma_values_list("mentions"@, texts(q.mention_user_ids), k);
    lemma_values_list("mentions_role_id"@, texts(q.mention_role_ids), k);
    lemma_values_optional("mention_everyone"@, opt_text(q.mention_everyone), k);
    lemma_values_list("replied_to_user_id"@, texts(q.replied_to_user_ids), k);
    lemma_values_list("replied_to_message_id"@, texts(q.replied_to_message_ids), k);
    lemma_values_optional("pinned"@, opt_text(q.pinned), k);
    lemma_values_list("has"@, texts(q.has), k);
    lemma_values_list("embed_type"@, texts(q.embed_types), k);
    lemma_values_list("embed_provider"@, q.embed_providers, k);
    lemma_values_list("link_hostname"@, q.link_hostnames, k);
    lemma_values_list("attachment_filename"@, q.attachment_filenames, k);
    lemma_values_list("attachment_extension"@, q.attachment_extensions, k);
    lemma_values_optional("sort_by"@, opt_text(q.sort_by), k);
    lemma_values_optional("sort_order"@, opt_text(q.sort_order), k);
    lemma_values_optional("include_nsfw"@, opt_text(q.include_nsfw), k);
    lemma_values_concat(
        optional_param("limit"@, opt_text(q.limit)),
        optional_param("offset"@, opt_text(q.offset)),
        k,
    );
    lemma_values_concat(
        optional_param("limit"@, opt_text(q.limit))
            + optional_param("offset"@, opt_text(q.offset)),
        optional_param("max_id"@, opt_text(q.max_id)),
        k,
    );
    lemma_values_concat(
        optional_param("limit"@, opt_text(q.limit))
            + optional_param("offset"@, opt_text(q.offset))
            + optional_param("max_id"@, opt_text(q.max_id)),
        optional_param("min_id"@, opt_text(q.min_id)),
        k,
    );
    lemma_values_concat(
        optional_param("limit"@, opt_text(q.limit))
            + optional_param("offset"@, opt_text(q.offset))
            + optional_param("max_id"@, opt_text(q.max_id))
            + optional_param("min_id"@, opt_text(q.min_id)),
        optional_param("slop"@, opt_text(q.slop)),
        k,
    );
    lemma_values_concat(
        optional_param("limit"@, opt_text(q.limit))
            + optional_param("offset"@, opt_text(q.offset))
            + optional_param("max_id"@, opt_text(q.max_id))
            + optional_param("min_id"@, opt_text(q.min_id))
            + optional_param("slop"@, opt_text(q.slop)),
        optional_param("content"@, q.content),
        k,
    );
    lemma_values_concat(
        optional_param("limit"@, opt_text(q.limit))
            + optional_param("offset"@, opt_text(q.offset))
            + optional_param("max_id"@, opt_text(q.max_id))
            + optional_param("min_id"@, opt_text(q.min_id))
            + optional_param("slop"@, opt_text(q.slop))
            + optional_param("content"@, q.content),
        list_params("channel_id"@, texts(q.channel_ids)),
        k,
    );
    lemma_values_concat(
        optional_param("limit"@, opt_text(q.limit))
            + optional_param("offset"@, opt_text(q.offset))
            + optional_param("max_id"@, opt_text(q.max_id))
            + optional_param("min_id"@, opt_text(q.min_id))
            + optional_param("slop"@, opt_text(q.slop))
            + optional_param("content"@, q.content)
            + list_params("channel_id"@, texts(q.channel_ids)),
        list_params("author_type"@, texts(q.author_types)),
        k,
    );
    lemma_values_concat(
        optional_param("limit"@, opt_text(q.limit))
            + optional_param("offset"@, opt_text(q.offset))
            + optional_param("max_id"@, opt_text(q.max_id))
            + optional_param("min_id"@, opt_text(q.min_id))
            + optional_param("slop"@, opt_text(q.slop))
            + optional_param("content"@, q.content)
            + list_params("channel_id"@, texts(q.channel_ids))
            + list_params("author_type"@, texts(q.author_types)),
        list_params("author_id"@, texts(q.author_ids)),
        k,
    );
    lemma_values_concat(
        optional_param("limit"@, opt_text(q.limit))
            + optional_param("offset"@, opt_text(q.offset))
            + optional_param("max_id"@, opt_text(q.max_id))
            + optional_param("min_id"@, opt_text(q.min_id))
            + optional_param("slop"@, opt_text(q.slop))
            + optional_param("content"@, q.content)
            + list_params("channel_id"@, texts(q.channel_ids))
            + list_params("author_type"@, texts(q.author_types))
            + list_params("author_id"@, texts(q.author_ids)),
        list_params("mentions"@, texts(q.mention_user_ids)),
        k,
    );
    lemma_values_concat(
        optional_param("limit"@, opt_text(q.limit))
            + optional_param("offset"@, opt_text(q.offset))
            + optional_param("max_id"@, opt_text(q.max_id))
            + optional_param("min_id"@, opt_text(q.min_id))
            + optional_param("slop"@, opt_text(q.slop))
            + optional_param("content"@, q.content)
            + list_params("channel_id"@, texts(q.channel_ids))
            + list_params("author_type"@, texts(q.author_types))
            + list_params("author_id"@, texts(q.author_ids))
            + list_params("mentions"@, texts(q.mention_user_ids)),
        list_params("mentions_role_id"@, texts(q.mention_role_ids)),
        k,
    );
    lemma_values_concat(
        optional_param("limit"@, opt_text(q.limit))
            + optional_param("offset"@, opt_text(q.offset))
            + optional_param("max_id"@, opt_text(q.max_id))
            + optional_param("min_id"@, opt_text(q.min_id))
            + optional_param("slop"@, opt_text(q.slop))
            + optional_param("content"@, q.content)
            + list_params("channel_id"@, texts(q.channel_ids))
            + list_params("author_type"@, texts(q.author_types))
            + list_params("author_id"@, texts(q.author_ids))
            + list_params("mentions"@, texts(q.mention_user_ids))
            + list_params("mentions_role_id"@, texts(q.mention_role_ids)),
        optional_param("mention_everyone"@, opt_text(q.mention_everyone)),
        k,
    );
    lemma_values_concat(
        optional_param("limit"@, opt_text(q.limit))
            + optional_param("offset"@, opt_text(q.offset))
            + optional_param("max_id"@, opt_text(q.max_id))
            + optional_param("min_id"@, opt_text(q.min_id))
            + optional_param("slop"@, opt_text(q.slop))
            + optional_param("content"@, q.content)
            + list_params("channel_id"@, texts(q.channel_ids))
            + list_params("author_type"@, texts(q.author_types))
            + list_params("author_id"@, texts(q.author_ids))
            + list_params("mentions"@, texts(q.mention_user_ids))
            + list_params("mentions_role_id"@, texts(q.mention_role_ids))
            + optional_param("mention_everyone"@, opt_text(q.mention_everyone)),
        list_params("replied_to_user_id"@, texts(q.replied_to_user_ids)),
        k,
    );
    lemma_values_concat(
        optional_param("limit"@, opt_text(q.limit))
            + optional_param("offset"@, opt_text(q.offset))
            + optional_param("max_id"@, opt_text(q.max_id))
            + optional_param("min_id"@, opt_text(q.min_id))
            + optional_param("slop"@, opt_text(q.slop))
            + optional_param("content"@, q.content)
            + list_params("channel_id"@, texts(q.channel_ids))
            + list_params("author_type"@, texts(q.author_types))
            + list_params("author_id"@, texts(q.author_ids))
            + list_params("mentions"@, texts(q.mention_user_ids))
            + list_params("mentions_role_id"@, texts(q.mention_role_ids))
            + optional_param("mention_everyone"@, opt_text(q.mention_everyone))
            + list_params("replied_to_user_id"@, texts(q.replied_to_user_ids)),
        list_params("replied_to_message_id"@, texts(q.replied_to_message_ids)),
        k,
    );
    lemma_values_concat(
        optional_param("limit"@, opt_text(q.limit))
            + optional_param("offset"@, opt_text(q.offset))
            + optional_param("max_id"@, opt_text(q.max_id))
            + optional_param("min_id"@, opt_text(q.min_id))
            + optional_param("slop"@, opt_text(q.slop))
            + optional_param("content"@, q.content)
            + list_params("channel_id"@, texts(q.channel_ids))
            + list_params("author_type"@, texts(q.author_types))
            + list_params("author_id"@, texts(q.author_ids))
            + list_params("mentions"@, texts(q.mention_user_ids))
            + list_params("mentions_role_id"@, texts(q.mention_role_ids))
            + optional_param("mention_everyone"@, opt_text(q.mention_everyone))
            + list_params("replied_to_user_id"@, texts(q.replied_to_user_ids))
            + list_params("replied_to_message_id"@, texts(q.replied_to_message_ids)),
        optional_param("pinned"@, opt_text(q.pinned)),
        k,
    );
    lemma_values_concat(
        optional_param("limit"@, opt_text(q.limit))
            + optional_param("offset"@, opt_text(q.offset))
            + optional_param("max_id"@, opt_text(q.max_id))
            + optional_param("min_id"@, opt_text(q.min_id))
            + optional_param("slop"@, opt_text(q.slop))
            + optional_param("content"@, q.content)
            + list_params("channel_id"@, texts(q.channel_ids))
            + list_params("author_type"@, texts(q.author_types))
            + list_params("author_id"@, texts(q.author_ids))
            + list_params("mentions"@, texts(q.mention_user_ids))
            + list_params("mentions_role_id"@, texts(q.mention_role_ids))
            + optional_param("mention_everyone"@, opt_text(q.mention_everyone))
            + list_params("replied_to_user_id"@, texts(q.replied_to_user_ids))
            + list_params("replied_to_message_id"@, texts(q.replied_to_message_ids))
            + optional_param("pinned"@, opt_text(q.pinned)),
        list_params("has"@, texts(q.has)),
        k,
    );
    lemma_values_concat(
        optional_param("limit"@, opt_text(q.limit))
            + optional_param("offset"@, opt_text(q.offset))
            + optional_param("max_id"@, opt_text(q.max_id))
            + optional_param("min_id"@, opt_text(q.min_id))
            + optional_param("slop"@, opt_text(q.slop))
            + optional_param("content"@, q.content)
            + list_params("channel_id"@, texts(q.channel_ids))
            + list_params("author_type"@, texts(q.author_types))
            + list_params("author_id"@, texts(q.author_ids))
            + list_params("mentions"@, texts(q.mention_user_ids))
            + list_params("mentions_role_id"@, texts(q.mention_role_ids))
            + optional_param("mention_everyone"@, opt_text(q.mention_everyone))
            + list_params("replied_to_user_id"@, texts(q.replied_to_user_ids))
            + list_params("replied_to_message_id"@, texts(q.replied_to_message_ids))
            + optional_param("pinned"@, opt_text(q.pinned))
            + list_params("has"@, texts(q.has)),
        list_params("embed_type"@, texts(q.embed_types)),
        k,
    );
    lemma_values_concat(
        optional_param("limit"@, opt_text(q.limit))
            + optional_param("offset"@, opt_text(q.offset))
            + optional_param("max_id"@, opt_text(q.max_id))
            + optional_param("min_id"@, opt_text(q.min_id))
            + optional_param("slop"@, opt_text(q.slop))
            + optional_param("content"@, q.content)
            + list_params("channel_id"@, texts(q.channel_ids))
            + list_params("author_type"@, texts(q.author_types))
            + list_params("author_id"@, texts(q.author_ids))
            + list_params("mentions"@, texts(q.mention_user_ids))
            + list_params("mentions_role_id"@, texts(q.mention_role_ids))
            + optional_param("mention_everyone"@, opt_text(q.mention_everyone))
            + list_params("replied_to_user_id"@, texts(q.replied_to_user_ids))
            + list_params("replied_to_message_id"@, texts(q.replied_to_message_ids))
            + optional_param("pinned"@, opt_text(q.pinned))
            + list_params("has"@, texts(q.has))
            + list_params("embed_type"@, texts(q.embed_types)),
        list_params("embed_provider"@, q.embed_providers),
        k,
    );
    lemma_values_concat(
        optional_param("limit"@, opt_text(q.limit))
            + optional_param("offset"@, opt_text(q.offset))
            + optional_param("max_id"@, opt_text(q.max_id))
            + optional_param("min_id"@, opt_text(q.min_id))
            + optional_param("slop"@, opt_text(q.slop))
            + optional_param("content"@, q.content)
            + list_params("channel_id"@, texts(q.channel_ids))
            + list_params("author_type"@, texts(q.author_types))
            + list_params("author_id"@, texts(q.author_ids))
            + list_params("mentions"@, texts(q.mention_user_ids))
            + list_params("mentions_role_id"@, texts(q.mention_role_ids))
            + optional_param("mention_everyone"@, opt_text(q.mention_everyone))
            + list_params("replied_to_user_id"@, texts(q.replied_to_user_ids))
            + list_params("replied_to_message_id"@, texts(q.replied_to_message_ids))
            + optional_param("pinned"@, opt_text(q.pinned))
            + list_params("has"@, texts(q.has))
            + list_params("embed_type"@, texts(q.embed_types))
            + list_params("embed_provider"@, q.embed_providers),
        list_params("link_hostname"@, q.link_hostnames),
        k,
    );
    lemma_values_concat(
        optional_param("limit"@, opt_text(q.limit))
            + optional_param("offset"@, opt_text(q.offset))
            + optional_param("max_id"@, opt_text(q.max_id))
            + optional_param("min_id"@, opt_text(q.min_id))
            + optional_param("slop"@, opt_text(q.slop))
            + optional_param("content"@, q.content)
            + list_params("channel_id"@, texts(q.channel_ids))
            + list_params("author_type"@, texts(q.author_types))
            + list_params("author_id"@, texts(q.author_ids))
            + list_params("mentions"@, texts(q.mention_user_ids))
            + list_params("mentions_role_id"@, texts(q.mention_role_ids))
            + optional_param("mention_everyone"@, opt_text(q.mention_everyone))
            + list_params("replied_to_user_id"@, texts(q.replied_to_user_ids))
            + list_params("replied_to_message_id"@, texts(q.replied_to_message_ids))
            + optional_param("pinned"@, opt_text(q.pinned))
            + list_params("has"@, texts(q.has))
            + list_params("embed_type"@, texts(q.embed_types))
            + list_params("embed_provider"@, q.embed_providers)
            + list_params("link_hostname"@, q.link_hostnames),
        list_params("attachment_filename"@, q.attachment_filenames),
        k,
    );
    lemma_values_concat(
        optional_param("limit"@, opt_text(q.limit))
            + optional_param("offset"@, opt_text(q.offset))
            + optional_param("max_id"@, opt_text(q.max_id))
            + optional_param("min_id"@, opt_text(q.min_id))
            + optional_param("slop"@, opt_text(q.slop))
            + optional_param("content"@, q.content)
            + list_params("channel_id"@, texts(q.channel_ids))
            + list_params("author_type"@, texts(q.author_types))
            + list_params("author_id"@, texts(q.author_ids))
            + list_params("mentions"@, texts(q.mention_user_ids))
            + list_params("mentions_role_id"@, texts(q.mention_role_ids))
            + optional_param("mention_everyone"@, opt_text(q.mention_everyone))
            + list_params("replied_to_user_id"@, texts(q.replied_to_user_ids))
            + list_params("replied_to_message_id"@, texts(q.replied_to_message_ids))
            + optional_param("pinned"@, opt_text(q.pinned))
            + list_params("has"@, texts(q.has))
            + list_params("embed_type"@, texts(q.embed_types))
            + list_params("embed_provider"@, q.embed_providers)
            + list_params("link_hostname"@, q.link_hostnames)
            + list_params("attachment_filename"@, q.attachment_filenames),
        list_params("attachment_extension"@, q.attachment_extensions),
        k,
    );
    lemma_values_concat(
        optional_param("limit"@, opt_text(q.limit))
            + optional_param("offset"@, opt_text(q.offset))
            + optional_param("max_id"@, opt_text(q.max_id))
            + optional_param("min_id"@, opt_text(q.min_id))
            + optional_param("slop"@, opt_text(q.slop))
            + optional_param("content"@, q.content)
            + list_params("channel_id"@, texts(q.channel_ids))
            + list_params("author_type"@, texts(q.author_types))
            + list_params("author_id"@, texts(q.author_ids))
            + list_params("mentions"@, texts(q.mention_user_ids))
            + list_params("mentions_role_id"@, texts(q.mention_role_ids))
            + optional_param("mention_everyone"@, opt_text(q.mention_everyone))
            + list_params("replied_to_user_id"@, texts(q.replied_to_user_ids))
            + list_params("replied_to_message_id"@, texts(q.replied_to_message_ids))
            + optional_param("pinned"@, opt_text(q.pinned))
            + list_params("has"@, texts(q.has))
            + list_params("embed_type"@, texts(q.embed_types))
            + list_params("embed_provider"@, q.embed_providers)
            + list_params("link_hostname"@, q.link_hostnames)
            + list_params("attachment_filename"@, q.attachment_filenames)
            + list_params("attachment_extension"@, q.attachment_extensions),
        optional_param("sort_by"@, opt_text(q.sort_by)),
        k,
    );
    lemma_values_concat(
        optional_param("limit"@, opt_text(q.limit))
            + optional_param("offset"@, opt_text(q.offset))
            + optional_param("max_id"@, opt_text(q.max_id))
            + optional_param("min_id"@, opt_text(q.min_id))
            + optional_param("slop"@, opt_text(q.slop))
            + optional_param("content"@, q.content)
            + list_params("channel_id"@, texts(q.channel_ids))
            + list_params("author_type"@, texts(q.author_types))
            + list_params("author_id"@, texts(q.author_ids))
            + list_params("mentions"@, texts(q.mention_user_ids))
            + list_params("mentions_role_id"@, texts(q.mention_role_ids))
            + optional_param("mention_everyone"@, opt_text(q.mention_everyone))
            + list_params("replied_to_user_id"@, texts(q.replied_to_user_ids))
            + list_params("replied_to_message_id"@, texts(q.replied_to_message_ids))
            + optional_param("pinned"@, opt_text(q.pinned))
            + list_params("has"@, texts(q.has))
            + list_params("embed_type"@, texts(q.embed_types))
            + list_params("embed_provider"@, q.embed_providers)
            + list_params("link_hostname"@, q.link_hostnames)
            + list_params("attachment_filename"@, q.attachment_filenames)
            + list_params("attachment_extension"@, q.attachment_extensions)
            + optional_param("sort_by"@, opt_text(q.sort_by)),
        optional_param("sort_order"@, opt_text(q.sort_order)),
        k,
    );
    lemma_values_concat(
        optional_param("limit"@, opt_text(q.limit))
            + optional_param("offset"@, opt_text(q.offset))
            + optional_param("max_id"@, opt_text(q.max_id))
            + optional_param("min_id"@, opt_text(q.min_id))
            + optional_param("slop"@, opt_text(q.slop))
            + optional_param("content"@, q.content)
            + list_params("channel_id"@, texts(q.channel_ids))
            + list_params("author_type"@, texts(q.author_types))
            + list_params("author_id"@, texts(q.author_ids))
            + list_params("mentions"@, texts(q.mention_user_ids))
            + list_params("mentions_role_id"@, texts(q.mention_role_ids))
            + optional_param("mention_everyone"@, opt_text(q.mention_everyone))
            + list_params("replied_to_user_id"@, texts(q.replied_to_user_ids))
            + list_params("replied_to_message_id"@, texts(q.replied_to_message_ids))
            + optional_param("pinned"@, opt_text(q.pinned))
            + list_params("has"@, texts(q.has))
            + list_params("embed_type"@, texts(q.embed_types))
            + list_params("embed_provider"@, q.embed_providers)
            + list_params("link_hostname"@, q.link_hostnames)
            + list_params("attachment_filename"@, q.attachment_filenames)
            + list_params("attachment_extension"@, q.attachment_extensions)
            + optional_param("sort_by"@, opt_text(q.sort_by))
            + optional_param("sort_order"@, opt_text(q.sort_order)),
        optional_param("include_nsfw"@, opt_text(q.include_nsfw)),
        k,
    );
}

/// The keys of the query string are told apart by their length and first characters.
proof fn lemma_key_texts()
    ensures
        "limit"@.len() == 5,
        "limit"@[0] == 'l',
        "limit"@[1] == 'i',
        "offset"@.len() == 6,
        "offset"@[0] == 'o',
        "offset"@[1] == 'f',
        "max_id"@.len() == 6,
        "max_id"@[0] == 'm',
        "max_id"@[1] == 'a',
        "min_id"@.len() == 6,
        "min_id"@[0] == 'm',
        "min_id"@[1] == 'i',
        "slop"@.len() == 4,
        "slop"@[0] == 's',
        "slop"@[1] == 'l',
        "content"@.len() == 7,
        "content"@[0] == 'c',
        "content"@[1] == 'o',
        "channel_id"@.len() == 10,
        "channel_id"@[0] == 'c',
        "channel_id"@[1] == 'h',
        "author_type"@.len() == 11,
        "author_type"@[0] == 'a',
        "author_type"@[1] == 'u',
        "author_id"@.len() == 9,
        "author_id"@[0] == 'a',
        "author_id"@[1] == 'u',
        "mentions"@.len() == 8,
        "mentions"@[0] == 'm',
        "mentions"@[1] == 'e',
        "mentions_role_id"@.len() == 16,
        "mentions_role_id"@[0] == 'm',
        "mentions_role_id"@[1] == 'e',
        "mention_everyone"@.len() == 16,
        "mention_everyone"@[0] == 'm',
        "mention_everyone"@[1] == 'e',
        "replied_to_user_id"@.len() == 18,
        "replied_to_user_id"@[0] == 'r',
        "replied_to_user_id"@[1] == 'e',
        "replied_to_message_id"@.len() == 21,
        "replied_to_message_id"@[0] == 'r',
        "replied_to_message_id"@[1] == 'e',
        "pinned"@.len() == 6,
        "pinned"@[0] == 'p',
        "pinned"@[1] == 'i',
        "has"@.len() == 3,
        "has"@[0] == 'h',
        "has"@[1] == 'a',
        "embed_type"@.len() == 10,
        "embed_type"@[0] == 'e',
        "embed_type"@[1] == 'm',
        "embed_provider"@.len() == 14,
        "embed_provider"@[0] == 'e',
        "embed_provider"@[1] == 'm',
        "link_hostname"@.len() == 13,
        "link_hostname"@[0] == 'l',
        "link_hostname"@[1] == 'i',
        "attachment_filename"@.len() == 19,
        "attachment_filename"@[0] == 'a',
        "attachment_filename"@[1] == 't',
        "attachment_extension"@.len() == 20,
        "attachment_extension"@[0] == 'a',
        "attachment_extension"@[1] == 't',
        "sort_by"@.len() == 7,
        "sort_by"@[0] == 's',
        "sort_by"@[1] == 'o',
        "sort_order"@.len() == 10,
        "sort_order"@[0] == 's',
        "sort_order"@[1] == 'o',
        "include_nsfw"@.len() == 12,
        "include_nsfw"@[0] == 'i',
        "include_nsfw"@[1] == 'n',
        "mentions_role_id"@[7] == 's',
        "mention_everyone"@[7] == '_',
{
    reveal_strlit("limit");
    reveal_strlit("offset");
    reveal_strlit("max_id");
    reveal_strlit("min_id");
    reveal_strlit("slop");
    reveal_strlit("content");
    reveal_strlit("channel_id");
    reveal_strlit("author_type");
    reveal_strlit("author_id");
    reveal_strlit("mentions");
    reveal_strlit("mentions_role_id");
    reveal_strlit("mention_everyone");
    reveal_strlit("replied_to_user_id");
    reveal_strlit("replied_to_message_id");
    reveal_strlit("pinned");
    reveal_strlit("has");
    reveal_strlit("embed_type");
    reveal_strlit("embed_provider");
    reveal_strlit("link_hostname");
    reveal_strlit("attachment_filename");
    reveal_strlit("attachment_extension");
    reveal_strlit("sort_by");
    reveal_strlit("sort_order");
    reveal_strlit("include_nsfw");
}

proof fn lemma_key_limit(q: MessageQueryView)
    ensures
        values_with_key(param_pairs(q), "limit"@) == opt_with(q.limit, |l: u8| decimal(l as nat)),
{
    lemma_keyed_values(q, "limit"@);
    lemma_key_texts();
    assert(keyed_values(q, "limit"@) =~= opt_with(q.limit, |l: u8| decimal(l as nat)));
}

proof fn lemma_key_offset(q: MessageQueryView)
    ensures
        values_with_key(param_pairs(q), "offset"@) == opt_with(q.offset, |o: u16| decimal(o as nat)),
{
    lemma_keyed_values(q, "offset"@);
    lemma_key_texts();
    assert(keyed_values(q, "offset"@) =~= opt_with(q.offset, |o: u16| decimal(o as nat)));
}

proof fn lemma_key_max_id(q: MessageQueryView)
    ensures
        values_with_key(param_pairs(q), "max_id"@) == opt_with(q.max_id, |m: MessageId| decimal(m.id as nat)),
{
    lemma_keyed_values(q, "max_id"@);
    lemma_key_texts();
    assert(keyed_values(q, "max_id"@) =~= opt_with(q.max_id, |m: MessageId| decimal(m.id as nat)));
}

proof fn lemma_key_min_id(q: MessageQueryView)
    ensures
        values_with_key(param_pairs(q), "min_id"@) == opt_with(q.min_id, |m: MessageId| decimal(m.id as nat)),
{
    lemma_keyed_values(q, "min_id"@);
    lemma_key_texts();
    assert(keyed_values(q, "min_id"@) =~= opt_with(q.min_id, |m: MessageId| decimal(m.id as nat)));
}

proof fn lemma_key_slop(q: MessageQueryView)
    ensures
        values_with_key(param_pairs(q), "slop"@) == opt_with(q.slop, |s: u8| decimal(s as nat)),
{
    lemma_keyed_values(q, "slop"@);
    lemma_key_texts();
    assert(keyed_values(q, "slop"@) =~= opt_with(q.slop, |s: u8| decimal(s as nat)));
}

proof fn lemma_key_content(q: MessageQueryView)
    ensures
        values_with_key(param_pairs(q), "content"@) == opt_with(q.content, |c: Seq<char>| c),
{
    lemma_keyed_values(q, "content"@);
    lemma_key_texts();
    assert(keyed_values(q, "content"@) =~= opt_with(q.content, |c: Seq<char>| c));
}

proof fn lemma_key_channel_id(q: MessageQueryView)
    ensures
        values_with_key(param_pairs(q), "channel_id"@) == q.channel_ids.map_values(|c: GenericChannelId| decimal(c.id as nat)),
{
    lemma_keyed_values(q, "channel_id"@);
    lemma_key_texts();
    assert(keyed_values(q, "channel_id"@) =~= q.channel_ids.map_values(|c: GenericChannelId| decimal(c.id as nat)));
}

proof fn lemma_key_author_type(q: MessageQueryView)
    ensures
        values_with_key(param_pairs(q), "author_type"@) == q.author_types.map_values(|a: AuthorType| author_type_text(a)),
{
    lemma_keyed_values(q, "author_type"@);
    lemma_key_texts();
    assert(keyed_values(q, "author_type"@) =~= q.author_types.map_values(|a: AuthorType| author_type_text(a)));
}

proof fn lemma_key_author_id(q: MessageQueryView)
    ensures
        values_with_key(param_pairs(q), "author_id"@) == q.author_ids.map_values(|u: UserId| decimal(u.id as nat)),
{
    lemma_keyed_values(q, "author_id"@);
    lemma_key_texts();
    assert(keyed_values(q, "author_id"@) =~= q.author_ids.map_values(|u: UserId| decimal(u.id as nat)));
}

proof fn lemma_key_mentions(q: MessageQueryView)
    ensures
        values_with_key(param_pairs(q), "mentions"@) == q.mention_user_ids.map_values(|u: UserId| decimal(u.id as nat)),
{
    lemma_keyed_values(q, "mentions"@);
    lemma_key_texts();
    assert(keyed_values(q, "mentions"@) =~= q.mention_user_ids.map_values(|u: UserId| decimal(u.id as nat)));
}

proof fn lemma_key_mentions_role_id(q: MessageQueryView)
    ensures
        values_with_key(param_pairs(q), "mentions_role_id"@) == q.mention_role_ids.map_values(|r: RoleId| decimal(r.id as nat)),
{
    lemma_keyed_values(q, "mentions_role_id"@);
    lemma_key_texts();
    assert(keyed_values(q, "mentions_role_id"@) =~= q.mention_role_ids.map_values(|r: RoleId| decimal(r.id as nat)));
}

proof fn lemma_key_mention_everyone(q: MessageQueryView)
    ensures
        values_with_key(param_pairs(q), "mention_everyone"@) == opt_with(q.mention_everyone, |b: bool| if b { "1"@ } else { "0"@ }),
{
    lemma_keyed_values(q, "mention_everyone"@);
    lemma_key_texts();
    assert(keyed_values(q, "mention_everyone"@) =~= opt_with(q.mention_everyone, |b: bool| if b { "1"@ } else { "0"@ }));
}

proof fn lemma_key_replied_to_user_id(q: MessageQueryView)
    ensures
        values_with_key(param_pairs(q), "replied_to_user_id"@) == q.replied_to_user_ids.map_values(|u: UserId| decimal(u.id as nat)),
{
    lemma_keyed_values(q, "replied_to_user_id"@);
    lemma_key_texts();
    assert(keyed_values(q, "replied_to_user_id"@) =~= q.replied_to_user_ids.map_values(|u: UserId| decimal(u.id as nat)));
}

proof fn lemma_key_replied_to_message_id(q: MessageQueryView)
    ensures
        values_with_key(param_pairs(q), "replied_to_message_id"@) == q.replied_to_message_ids.map_values(|m: MessageId| decimal(m.id as nat)),
{
    lemma_keyed_values(q, "replied_to_message_id"@);
    lemma_key_texts();
    assert(keyed_values(q, "replied_to_message_id"@) =~= q.replied_to_message_ids.map_values(|m: MessageId| decimal(m.id as nat)));
}

proof fn lemma_key_pinned(q: MessageQueryView)
    ensures
        values_with_key(param_pairs(q), "pinned"@) == opt_with(q.pinned, |b: bool| if b { "1"@ } else { "0"@ }),
{
    lemma_keyed_values(q, "pinned"@);
    lemma_key_texts();
    assert(keyed_values(q, "pinned"@) =~= opt_with(q.pinned, |b: bool| if b { "1"@ } else { "0"@ }));
}

proof fn lemma_key_has(q: MessageQueryView)
    ensures
        values_with_key(param_pairs(q), "has"@) == q.has.map_values(|h: SearchHas| search_has_text(h)),
{
    lemma_keyed_values(q, "has"@);
    lemma_key_texts();
    assert(keyed_values(q, "has"@) =~= q.has.map_values(|h: SearchHas| search_has_text(h)));
}

proof fn lemma_key_embed_type(q: MessageQueryView)
    ensures
        values_with_key(param_pairs(q), "embed_type"@) == q.embed_types.map_values(|e: SearchEmbed| search_embed_text(e)),
{
    lemma_keyed_values(q, "embed_type"@);
    lemma_key_texts();
    assert(keyed_values(q, "embed_type"@) =~= q.embed_types.map_values(|e: SearchEmbed| search_embed_text(e)));
}

proof fn lemma_key_embed_provider(q: MessageQueryView)
    ensures
        values_with_key(param_pairs(q), "embed_provider"@) == q.embed_providers,
{
    lemma_keyed_values(q, "embed_provider"@);
    lemma_key_texts();
    assert(keyed_values(q, "embed_provider"@) =~= q.embed_providers);
}

proof fn lemma_key_link_hostname(q: MessageQueryView)
    ensures
        values_with_key(param_pairs(q), "link_hostname"@) == q.link_hostnames,
{
    lemma_keyed_values(q, "link_hostname"@);
    lemma_key_texts();
    assert(keyed_values(q, "link_hostname"@) =~= q.link_hostnames);
}

proof fn lemma_key_attachment_filename(q: MessageQueryView)
    ensures
        values_with_key(param_pairs(q), "attachment_filename"@) == q.attachment_filenames,
{
    lemma_keyed_values(q, "attachment_filename"@);
    lemma_key_texts();
    assert(keyed_values(q, "attachment_filename"@) =~= q.attachment_filenames);
}

proof fn lemma_key_attachment_extension(q: MessageQueryView)
    ensures
        values_with_key(param_pairs(q), "attachment_extension"@) == q.attachment_extensions,
{
    lemma_keyed_values(q, "attachment_extension"@);
    lemma_key_texts();
    assert(keyed_values(q, "attachment_extension"@) =~= q.attachment_extensions);
}

proof fn lemma_key_sort_by(q: MessageQueryView)
    ensures
        values_with_key(param_pairs(q), "sort_by"@) == opt_with(q.sort_by, |m: SearchSortMode| sort_mode_text(m)),
{
    lemma_keyed_values(q, "sort_by"@);
    lemma_key_texts();
    assert(keyed_values(q, "sort_by"@) =~= opt_with(q.sort_by, |m: SearchSortMode| sort_mode_text(m)));
}

proof fn lemma_key_sort_order(q: MessageQueryView)
    ensures
        values_with_key(param_pairs(q), "sort_order"@) == opt_with(q.sort_order, |o: SearchSortOrder| sort_order_text(o)),
{
    lemma_keyed_values(q, "sort_order"@);
    lemma_key_texts();
    assert(keyed_values(q, "sort_order"@) =~= opt_with(q.sort_order, |o: SearchSortOrder| sort_order_text(o)));
}

proof fn lemma_key_include_nsfw(q: MessageQueryView)
    ensures
        values_with_key(param_pairs(q), "include_nsfw"@) == opt_with(q.include_nsfw, |b: bool| if b { "1"@ } else { "0"@ }),
{
    lemma_keyed_values(q, "include_nsfw"@);
    lemma_key_texts();
    assert(keyed_values(q, "include_nsfw"@) =~= opt_with(q.include_nsfw, |b: bool| if b { "1"@ } else { "0"@ }));
}

/// Each key of the query string carries exactly the values of its own filter, in order,
/// whatever else the query sets: numbers and Ids are written in decimal, booleans as
/// `"1"` or `"0"`, and the kinds by their Discord texts; a filter that is not set sends
/// nothing under its key.
pub proof fn lemma_params_by_key(q: MessageQueryView)
    ensures
        values_with_key(param_pairs(q), "limit"@) == opt_with(q.limit, |l: u8| decimal(l as nat)),
        values_with_key(param_pairs(q), "offset"@) == opt_with(q.offset, |o: u16| decimal(o as nat)),
        values_with_key(param_pairs(q), "max_id"@) == opt_with(q.max_id, |m: MessageId| decimal(m.id as nat)),
        values_with_key(param_pairs(q), "min_id"@) == opt_with(q.min_id, |m: MessageId| decimal(m.id as nat)),
        values_with_key(param_pairs(q), "slop"@) == opt_with(q.slop, |s: u8| decimal(s as nat)),
        values_with_key(param_pairs(q), "content"@) == opt_with(q.content, |c: Seq<char>| c),
        values_with_key(param_pairs(q), "channel_id"@) == q.channel_ids.map_values(|c: GenericChannelId| decimal(c.id as nat)),
        values_with_key(param_pairs(q), "author_type"@) == q.author_types.map_values(|a: AuthorType| author_type_text(a)),
        values_with_key(param_pairs(q), "author_id"@) == q.author_ids.map_values(|u: UserId| decimal(u.id as nat)),
        values_with_key(param_pairs(q), "mentions"@) == q.mention_user_ids.map_values(|u: UserId| decimal(u.id as nat)),
        values_with_key(param_pairs(q), "mentions_role_id"@) == q.mention_role_ids.map_values(|r: RoleId| decimal(r.id as nat)),
        values_with_key(param_pairs(q), "mention_everyone"@) == opt_with(q.mention_everyone, |b: bool| if b { "1"@ } else { "0"@ }),
        values_with_key(param_pairs(q), "replied_to_user_id"@) == q.replied_to_user_ids.map_values(|u: UserId| decimal(u.id as nat)),
        values_with_key(param_pairs(q), "replied_to_message_id"@) == q.replied_to_message_ids.map_values(|m: MessageId| decimal(m.id as nat)),
        values_with_key(param_pairs(q), "pinned"@) == opt_with(q.pinned, |b: bool| if b { "1"@ } else { "0"@ }),
        values_with_key(param_pairs(q), "has"@) == q.has.map_values(|h: SearchHas| search_has_text(h)),
        values_with_key(param_pairs(q), "embed_type"@) == q.embed_types.map_values(|e: SearchEmbed| search_embed_text(e)),
        values_with_key(param_pairs(q), "embed_provider"@) == q.embed_providers,
        values_with_key(param_pairs(q), "link_hostname"@) == q.link_hostnames,
        values_with_key(param_pairs(q), "attachment_filename"@) == q.attachment_filenames,
        values_with_key(param_pairs(q), "attachment_extension"@) == q.attachment_extensions,
        values_with_key(param_pairs(q), "sort_by"@) == opt_with(q.sort_by, |m: SearchSortMode| sort_mode_text(m)),
        values_with_key(param_pairs(q), "sort_order"@) == opt_with(q.sort_order, |o: SearchSortOrder| sort_order_text(o)),
        values_with_key(param_pairs(q), "include_nsfw"@) == opt_with(q.include_nsfw, |b: bool| if b { "1"@ } else { "0"@ }),
{
    lemma_key_limit(q);
    lemma_key_offset(q);
    lemma_key_max_id(q);
    lemma_key_min_id(q);
    lemma_key_slop(q);
    lemma_key_content(q);
    lemma_key_channel_id(q);
    lemma_key_author_type(q);
    lemma_key_author_id(q);
    lemma_key_mentions(q);
    lemma_key_mentions_role_id(q);
    lemma_key_mention_everyone(q);
    lemma_key_replied_to_user_id(q);
    lemma_key_replied_to_message_id(q);
    lemma_key_pinned(q);
    lemma_key_has(q);
    lemma_key_embed_type(q);
    lemma_key_embed_provider(q);
    lemma_key_link_hostname(q);
    lemma_key_attachment_filename(q);
    lemma_key_attachment_extension(q);
    lemma_key_sort_by(q);
    lemma_key_sort_order(q);
    lemma_key_include_nsfw(q);
}

/// The text sent for an Id is its number written in decimal: digits only, no leading
/// zero, and it reads back as the Id's number.
pub proof fn lemma_id_texts_read_back(m: MessageId, c: GenericChannelId, u: UserId, r: RoleId)
    ensures
        all_digits(m.query_text()) && digits_value(m.query_text()) == m.id && canonical_digits(m.query_text()),
        all_digits(c.query_text()) && digits_value(c.query_text()) == c.id && canonical_digits(c.query_text()),
        all_digits(u.query_text()) && digits_value(u.query_text()) == u.id && canonical_digits(u.query_text()),
        all_digits(r.query_text()) && digits_value(r.query_text()) == r.id && canonical_digits(r.query_text()),
{
    lemma_decimal_round_trip(m.id as nat);
    lemma_decimal_round_trip(c.id as nat);
    lemma_decimal_round_trip(u.id as nat);
    lemma_decimal_round_trip(r.id as nat);
    lemma_decimal_canonical(m.id as nat);
    lemma_decimal_canonical(c.id as nat);
    lemma_decimal_canonical(u.id as nat);
    lemma_decimal_canonical(r.id as nat);
}

/// The text sent for a number (limit, offset, slop) is its canonical decimal writing and
/// reads back as the number.
pub proof fn lemma_number_texts_read_back(a: u8, b: u16)
    ensures
        all_digits(a.query_text()) && digits_value(a.query_text()) == a && canonical_digits(a.query_text()),
        all_digits(b.query_text()) && digits_value(b.query_text()) == b && canonical_digits(b.query_text()),
{
    lemma_decimal_round_trip(a as nat);
    lemma_decimal_round_trip(b as nat);
    lemma_decimal_canonical(a as nat);
    lemma_decimal_canonical(b as nat);
}

/// A boolean is sent as the single digit `1` for true and `0` for false.
pub proof fn lemma_bool_text(b: bool)
    ensures
        b.query_text().len() == 1,
        all_digits(b.query_text()),
        digits_value(b.query_text()) == (if b { 1nat } else { 0nat }),
{
    reveal_strlit("1");
    reveal_strlit("0");
    let t = b.query_text();
    assert(t.drop_last() =~= Seq::<char>::empty());
    assert(digits_value(t.drop_last()) == 0);
    assert(t.last() == (if b { '1' } else { '0' }));
}

/// Each kind is sent as the text by which `as_str` names it.
pub proof fn lemma_kind_texts_match_as_str(
    a: AuthorType,
    h: SearchHas,
    e: SearchEmbed,
    m: SearchSortMode,
    o: SearchSortOrder,
)
    ensures
        a.query_text() == author_type_text(a),
        h.query_text() == search_has_text(h),
        e.query_text() == search_embed_text(e),
        m.query_text() == sort_mode_text(m),
        o.query_text() == sort_order_text(o),
{
}

/// Distinct author_type are sent as distinct texts, so Discord can tell them apart.
pub proof fn lemma_author_type_texts_distinct(a: AuthorType, b: AuthorType)
    ensures
        author_type_text(a) == author_type_text(b) ==> a == b,
{
    reveal_strlit("user");
    reveal_strlit("bot");
    reveal_strlit("webhook");
    reveal_strlit("-user");
    reveal_strlit("-bot");
    reveal_strlit("-webhook");
    assert("user"@.len() == 4);
    assert("user"@[0] == 'u');
    assert("user"@[1] == 's');
    assert("bot"@.len() == 3);
    assert("bot"@[0] == 'b');
    assert("bot"@[1] == 'o');
    assert("webhook"@.len() == 7);
    assert("webhook"@[0] == 'w');
    assert("webhook"@[1] == 'e');
    assert("-user"@.len() == 5);
    assert("-user"@[0] == '-');
    assert("-user"@[1] == 'u');
    assert("-bot"@.len() == 4);
    assert("-bot"@[0] == '-');
    assert("-bot"@[1] == 'b');
    assert("-webhook"@.len() == 8);
    assert("-webhook"@[0] == '-');
    assert("-webhook"@[1] == 'w');
}

/// Distinct search_has are sent as distinct texts, so Discord can tell them apart.
pub proof fn lemma_search_has_texts_distinct(a: SearchHas, b: SearchHas)
    ensures
        search_has_text(a) == search_has_text(b) ==> a == b,
{
    reveal_strlit("image");
    reveal_strlit("sound");
    reveal_strlit("video");
    reveal_strlit("file");
    reveal_strlit("sticker");
    reveal_strlit("embed");
    reveal_strlit("link");
    reveal_strlit("poll");
    reveal_strlit("snapshot");
    reveal_strlit("-image");
    reveal_strlit("-sound");
    reveal_strlit("-video");
    reveal_strlit("-file");
    reveal_strlit("-sticker");
    reveal_strlit("-embed");
    reveal_strlit("-link");
    reveal_strlit("-poll");
    reveal_strlit("-snapshot");
    assert("image"@.len() == 5);
    assert("image"@[0] == 'i');
    assert("image"@[1] == 'm');
    assert("sound"@.len() == 5);
    assert("sound"@[0] == 's');
    assert("sound"@[1] == 'o');
    assert("video"@.len() == 5);
    assert("video"@[0] == 'v');
    assert("video"@[1] == 'i');
    assert("file"@.len() == 4);
    assert("file"@[0] == 'f');
    assert("file"@[1] == 'i');
    assert("sticker"@.len() == 7);
    assert("sticker"@[0] == 's');
    assert("sticker"@[1] == 't');
    assert("embed"@.len() == 5);
    assert("embed"@[0] == 'e');
    assert("embed"@[1] == 'm');
    assert("link"@.len() == 4);
    assert("link"@[0] == 'l');
    assert("link"@[1] == 'i');
    assert("poll"@.len() == 4);
    assert("poll"@[0] == 'p');
    assert("poll"@[1] == 'o');
    assert("snapshot"@.len() == 8);
    assert("snapshot"@[0] == 's');
    assert("snapshot"@[1] == 'n');
    assert("-image"@.len() == 6);
    assert("-image"@[0] == '-');
    assert("-image"@[1] == 'i');
    assert("-sound"@.len() == 6);
    assert("-sound"@[0] == '-');
    assert("-sound"@[1] == 's');
    assert("-video"@.len() == 6);
    assert("-video"@[0] == '-');
    assert("-video"@[1] == 'v');
    assert("-file"@.len() == 5);
    assert("-file"@[0] == '-');
    assert("-file"@[1] == 'f');
    assert("-sticker"@.len() == 8);
    assert("-sticker"@[0] == '-');
    assert("-sticker"@[1] == 's');
    assert("-embed"@.len() == 6);
    assert("-embed"@[0] == '-');
    assert("-embed"@[1] == 'e');
    assert("-link"@.len() == 5);
    assert("-link"@[0] == '-');
    assert("-link"@[1] == 'l');
    assert("-poll"@.len() == 5);
    assert("-poll"@[0] == '-');
    assert("-poll"@[1] == 'p');
    assert("-snapshot"@.len() == 9);
    assert("-snapshot"@[0] == '-');
    assert("-snapshot"@[1] == 's');
}

/// Distinct search_embed are sent as distinct texts, so Discord can tell them apart.
pub proof fn lemma_search_embed_texts_distinct(a: SearchEmbed, b: SearchEmbed)
    ensures
        search_embed_text(a) == search_embed_text(b) ==> a == b,
{
    reveal_strlit("image");
    reveal_strlit("video");
    reveal_strlit("gif");
    reveal_strlit("sound");
    reveal_strlit("article");
    assert("image"@.len() == 5);
    assert("image"@[0] == 'i');
    assert("image"@[1] == 'm');
    assert("video"@.len() == 5);
    assert("video"@[0] == 'v');
    assert("video"@[1] == 'i');
    assert("gif"@.len() == 3);
    assert("gif"@[0] == 'g');
    assert("gif"@[1] == 'i');
    assert("sound"@.len() == 5);
    assert("sound"@[0] == 's');
    assert("sound"@[1] == 'o');
    assert("article"@.len() == 7);
    assert("article"@[0] == 'a');
    assert("article"@[1] == 'r');
}

/// Distinct sort_mode are sent as distinct texts, so Discord can tell them apart.
pub proof fn lemma_sort_mode_texts_distinct(a: SearchSortMode, b: SearchSortMode)
    ensures
        sort_mode_text(a) == sort_mode_text(b) ==> a == b,
{
    reveal_strlit("timestamp");
    reveal_strlit("relevance");
    assert("timestamp"@.len() == 9);
    assert("timestamp"@[0] == 't');
    assert("timestamp"@[1] == 'i');
    assert("relevance"@.len() == 9);
    assert("relevance"@[0] == 'r');
    assert("relevance"@[1] == 'e');
}

/// Distinct sort_order are sent as distinct texts, so Discord can tell them apart.
pub proof fn lemma_sort_order_texts_distinct(a: SearchSortOrder, b: SearchSortOrder)
    ensures
        sort_order_text(a) == sort_order_text(b) ==> a == b,
{
    reveal_strlit("asc");
    reveal_strlit("desc");
    assert("asc"@.len() == 3);
    assert("asc"@[0] == 'a');
    assert("asc"@[1] == 's');
    assert("desc"@.len() == 4);
    assert("desc"@[0] == 'd');
    assert("desc"@[1] == 'e');
}

} // verus!
