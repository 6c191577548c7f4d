# nekkobot

The logic of a Discord bot with a small economy (daily reward, shop, inventories),
moderation records (bans, warnings) and a gallery lookup, verified with Verus.

- `src/` is the verified library: the models (`models/`), the daily-reward and purchase
  rules, the gallery tag listing (`utils/nhentai.rs`), the reply texts and embeds of the
  commands (`commands/`), decimal rendering (`text.rs`), and the clock and duration
  formatting that it calls through chrono and humantime (`clock.rs`).
- `app/` is the bot itself: Discord (serenity), the PostgreSQL database (diesel), the
  nhentai.net API (reqwest, serde). It reads and writes; the library decides.
- `tests/` exercises the library on concrete values.
