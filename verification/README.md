# valmonitor

The backend logic of ValMonitor, a VALORANT companion: it follows the Riot
Client through its lockfile, talks to the Riot Local, auth, PVP and GLZ
APIs, valorant-api.com and the Henrik API, and shows an activity on Discord.

`src/` is a Verus library: every decision the backend takes is a function
with a contract, proved by Verus; only the floating-point averages and
ratios of the player statistics are computed outside it. Code that waits, reads files or talks to
the network drives the library as a state machine: it performs the action a
step asks for and hands the outcome back as the next event.

- `text`, `codec`, `json`, `string_map`: text, base64/UTF-8/header checks,
  a JSON model, and a sorted string map.
- `errors`, `http_log`: the error type with its kinds and messages, and the
  debug log lines of every HTTP exchange.
- `models`: the typed answers of the Riot and asset APIs and the lockfile.
- `riot`: the Riot session — region, presence, PVP/GLZ requests, the
  storefront fallback, the current-match lookup and the lockfile watcher.
- `henrik`: settings, request planning and answers of the Henrik API.
- `riot_api`: API clients that share a player, tokens and a reset flag,
  including the statistics over a player's recent matches.
- `riot_json`: the Riot session read through untyped JSON documents.
- `discord_rpc`, `app_config`, `commands`: activity requests, file paths,
  and the greeting command.

`app/` holds the HTTP, file, timer and Discord IPC code around the library,
the serde copies of its types and the command entry points. `tests/` runs
the library on concrete values.
