# mel

The decision logic of Mel, a Discord bot, verified with Verus.

- `src/` is the verified library: the help command (`help`), the framework's
  prefix, owner and before/after-command decisions (`commands`, `report`),
  custom reaction replies (`reaction`), the time stamp of command logs (`clock`), guild records and the judging of
  database updates (`guild`), configuration values (`config`), the image API
  registry (`apis`), the embed model (`embed`) and decimal text (`text`).
- `app/` is the bot itself: Discord, database, HTTP and environment access,
  built on serenity, mysql and isahc, calling the library for every decision.
- `tests/` runs the library on concrete cases.
