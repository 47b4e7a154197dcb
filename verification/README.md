# sentinel

The moderation and factoids logic of a Discord bot, verified with Verus.

- `src/` is the verified library: the factoid cache and its laws, the
  punishment records and how they are stored and read back, the texts the
  bot posts, the checks its commands make, the interaction bodies it sends,
  and the configuration lookups.
- `app/` is the bot program around it: Discord (poise/serenity), SQLite
  (rusqlite), the configuration file (toml/serde), and the async runtime.
- `tests/` runs the library on concrete values.
