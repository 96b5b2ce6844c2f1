# yarbot

A Discord bot for a pirate crew, with its logic verified by Verus.

- `src/` is the verified library: the web addresses of the game's services
  (`constant`), decimal rendering of numbers (`text`), the JSON answers of the
  services as plain values (`json`), the table rows (`models`), configuration
  rows (`config`), the commands' channel checks, replies and the steps of
  starting a raid (`commands`), and the answers of the error hooks (`hooks`).
- `app/` is the program around it: the Discord framework, the database, the
  web client and logging. It makes each request or query and hands the
  results to the library.
- `tests/` runs the library on concrete values.
