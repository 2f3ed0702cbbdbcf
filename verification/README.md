# protify_server

The servers of the Protify game launcher, with their decisions verified by
Verus.

- `src/` is the verified library: the rate limiter (`http::ip_hash`), the
  routing and step-by-step handling of requests (`http::handler`,
  `server::handler`, `server::service`), authentication, the JSON replies,
  the text of database queries and the reading of their answers
  (`source::database`), the reading of raw stream requests
  (`source::stream`), the socket message handling (`socket`), and the text
  helpers they share (`text`, `string_map`).
- `tests/` runs the library on concrete requests.
- `app/` is the program around it: the hyper, websocket and TCP listeners,
  the MySQL pool and the store folders. It performs what the library's
  handlers ask for (connect, query, list, send) and reports back.
