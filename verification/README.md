# onix_desktop

The core of the Onix desktop messenger client, verified with Verus.

- `src/` is the library: the data model and how users, conversations and
  messages are named and summarised (`models`), the login session and its
  cookie (`session`), the requests and answers of the server API (`api`),
  where the server is found and what settings are kept (`config`), the rows
  and notices the window shows and the start-up and polling decisions
  (`screens`, `boot`), the local time of a message (`clock`), and the text
  and number primitives they rest on (`text`, `number`, `json`).
- `app/` is the program around it: the HTTP client, the settings file, the
  environment, threads, and a terminal standing in for the window (one
  command per line: `login`, `register`, `open`, `send`, `attach`, `new`,
  `theme`, `action`, `logout`, `quit`).
- `tests/` runs the library on concrete values.
