# game_overlay

An in-game overlay for Source engine games, driven by server-side plugins,
with a manager between game servers and the players' overlays:

    [Overlay] <== websocket ==> [Manager] <== websocket ==> [Game server]

`src/` is the library, written in Verus. Its own functions have contracts
and are proved against them. The calls into serde_json, jwt, steamid-ng,
uuid and the clock stand in small trusted functions whose contracts are
believed, not proved (those whose results depend on chance or the clock
promise nothing of them).

- `manager` – the manager's clients and servers, logins, players joining
  and leaving servers, and the routing of elements and actions.
- `login`, `web`, `steam`, `handshake`, `messages`, `token` – the first
  exchange on a connection, the Steam login pages, the messages themselves,
  and signing and checking login tokens.
- `overlay`, `templates`, `player_list` – the overlay's templates, its
  elements and their approval by the player, and the player list.
- `connection`, `desktop_link`, `window`, `cache` – the overlay's link to the manager
  (reconnecting with a delay that grows with each failed attempt, logging
  in), when its window shows, and a small cache.
- `keyed_map`, `text`, `address`, `ids`, `json`, `clock`, `game` – the
  building blocks: an insertion-ordered map, text parsing, addresses, ids,
  and the few calls into serde_json, steamid-ng, uuid and the clock.

`app/` is the manager program: it runs the web server and the sockets,
talks to Steam, and leaves every decision to the library. `tests/` exercises the library on concrete values.
