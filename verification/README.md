# minecraft_command_bot

A Discord bot for a Minecraft server: it forwards the server log (chat, players
joining and leaving, advancements, server start and stop, deaths) to a Discord
channel, runs server commands over RCON for members with the `cmd` role
(`\cmd`, `\say`), converts player names and UUIDs (`\mcuuid`), and whitelists
the player named in a message when a `cmd` member reacts with a red heart.

Layout:

- `src/` — the verified library (Verus): the log-line grammar
  (`minecraft_line`), the send rules (`send_rule`), the command and reaction
  decisions (`commands`, `whitelist`, `listeners`), the Mojang API addresses and
  answers (`mojang`, `uuid_text`), decimal numbers (`number`) and text helpers
  (`text`).
- `tests/` — tests of the library, among them a comparison of the rules with the
  regular expressions of the log formats.
- `app/` — the bot itself: Discord (serenity, poise), RCON, HTTP, the log file
  watcher and the environment, driving the library.
