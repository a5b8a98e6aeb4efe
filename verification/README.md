# rsstg

A Telegram bot that fetches RSS and Atom feeds and posts what is new on public channels.

`src/` is the library. It decides everything that the bot does: which feeds are fetched and when,
which posts are new, what is written to the database and what is said to whom. Its contracts are
proved by Verus. It does no input or output of its own. Where a decision needs an answer from
outside, the library hands out a stage that says what to ask for, and takes the answer to get to the
next stage.

| module       | what it holds                                                             |
|--------------|---------------------------------------------------------------------------|
| `text`       | numbers, lines and quotes as text                                         |
| `moment`     | moments in time and the date formats of feeds                             |
| `rules`      | channel names, Instant View hashes, links and substitutions               |
| `listing`    | the entries of a map in order                                             |
| `feed`       | the posts of RSS and Atom feeds                                           |
| `token`      | one check of a source at a time                                           |
| `sql`        | rows, statements, and what their outcomes mean                            |
| `tg_bot`     | messages, keyboards and callbacks                                         |
| `cache`      | the feeds of users that were asked for lately                             |
| `check`      | the stages of a check of a source                                         |
| `check_laws` | what holds of a check from its start to its end                           |
| `bot`        | the settings of the bot, its queue, its cache and its answers             |
| `command`    | `/start`, `/list`, `/test` and the commands about one source              |
| `update`     | `/add` and `/update`                                                      |

`app/` is the program around the library: it talks to Telegram, to PostgreSQL and to the servers of
feeds, and reads the settings from a file named `rsstg` with the keys `owner`, `api_key`, `pg`,
`api_gateway` (optional) and `proxy` (optional).
