# search_messages

A verified builder for Discord's "search guild messages" request.

- `src/query.rs`: `MessageQuery`, its setters (limit, offset and slop capped as Discord
  requires, list filters that add or replace) and `into_param_pairs`, which writes the
  query string.
- `src/params.rs`: how each value is written in the query string, the specification of
  the whole parameter list, and laws about it.
- `src/kinds.rs`: the author types, searched-for things, embed types and sort choices,
  with their texts and their negation.
- `src/decimal.rs`: decimal writing of numbers, proved to read back.
- `src/search.rs`: the decisions of a running search: when to retry and how long to
  wait, whether to fill the cache, and how to group found messages by channel.
- `src/ids.rs`: the Id types.
- `app/lib.rs`: the async search loop around an HTTP client and a cache.
