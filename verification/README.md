# minecraft_bot

A Discord bot that manages a Minecraft server over RCON: whitelisting players, linking
Discord accounts to Minecraft accounts with one-time codes, and an in-game economy
(balances, and smiting a player for a fee).

- `src/` is the verified library: the text handling of RCON replies, the messages and
  buttons the bot shows, how button ids carry their arguments and how interactions are
  routed, the registration and linking steps, the smite steps, the RCON reconnection rule,
  the database connection settings and the choice and order of configuration files. Each
  step that waits on Discord, the database or the server is a function from state and
  answer to the next state and action, with laws about whole runs.
- `app/` is the program around it: Discord (poise), the database (sea-orm), RCON,
  configuration loading (figment), and reading a balance as a floating-point number.
- `tests/` exercises the library on concrete values.
