# modbot

The rules of a Telegram moderation bot, verified with Verus, and the program
that runs them.

- `src/` is the library. `flow` decides how each command (`/help`,
  `/giveadmin`, `/removeadmin`, `/ban`, `/unban`) is handled: it asks for one
  outside call at a time (a database query, a Telegram request, the clock, a
  reply) and decides on its outcome. `laws` proves what holds of every
  handling: who may change admin rights, who may ban whom and how often, that
  a ban is recorded only after Telegram carried it out, that each command ends
  after at most eleven calls and is answered at most once. `model`, `text`,
  `config` and `clock` hold the message model, text helpers (trimming, HTML
  escaping, decimal numbers), settings and the clock.
- `app/` is the program: it reads the settings, opens the SQLite database with
  sqlx and serves Telegram with teloxide, performing the actions the library
  asks for.
- `tests/` runs the library on concrete commands.
