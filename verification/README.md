# guildbot

A Discord moderation bot whose decisions are verified with Verus.

- `src/` is the verified library: the text it writes (decimal and
  hexadecimal numbers, parsing of ids, trimming), the rows and keys it
  stores in PostgreSQL, the replies of its chat commands, the handling of
  gateway events, the GraphQL guild query, and the automod flow that a
  message blocked by Twitch's AutoMod goes through, as a state machine.
- `app/` is the process around it: configuration, the Discord client
  (serenity), PostgreSQL (bb8, tokio-postgres), the Twitch request
  (reqwest), and the GraphQL server (async-graphql, warp). It performs the
  actions the library decides on and hands the outcomes back.
- `tests/` runs the library on concrete values.
