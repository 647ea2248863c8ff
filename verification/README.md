# Hydrogen

A Discord music bot backed by Lavalink. The decisions of the bot are a library
verified with Verus; the program around it talks to Discord, the voice gateway and
the Lavalink nodes.

## Layout

- `src/` — the verified library:
  - `player.rs`: the player, its queue, loop modes, templates and the play, skip,
    previous, pause, shuffle and next-track rules.
  - `cluster.rs`: the sessions of the Lavalink nodes and the round-robin choice of a node.
  - `events.rs`: what an event from Lavalink leads to, and where the players of a
    node that went away are moved.
  - `manager.rs`: the search queries, what a load result puts in the queue, and
    what a voice state change asks for.
  - `message.rs`: the player message and its buttons, and how it is updated.
  - `replies.rs`: the answers to the commands and buttons, and their options.
  - `handler.rs`: how an answer is delivered to the member.
  - `config.rs`: the Lavalink nodes named in the configuration text.
  - `i18n.rs`, `text.rs`, `time_parsers.rs`, `response.rs`, `routes.rs`, `model.rs`:
    translations, decimal texts, time syntaxes, responses, REST paths and the
    Lavalink data model.
- `tests/` — tests of the library on concrete values.
- `app/` — the program: Discord and Lavalink I/O, the JSON forms of the model, and
  the time texts computed with floating point.

## Configuring

- `DISCORD_TOKEN`: the Discord bot token (required).
- `LAVALINK`: the Lavalink nodes, e.g. `localhost:2333@youshallnotpass` or
  `localhost:2333@youshallnotpass;lavalink:443@securepassword/tls` (required).
- `DISABLE_MULTI_THREADING`: `true` to run on one thread (optional).
