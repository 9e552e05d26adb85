# css_server

The rules of the Cooperative Systems: Spaces makerspace server, as a library
whose behaviour is stated in `requires`/`ensures` contracts and proved with
Verus.

The server itself is an HTTP service around a database: it reads a request,
looks things up, decides, writes, and answers. The deciding is this library.
Each function takes what the server looked up (plain values, or the
library's own types) and returns what to answer or what to write, with a
contract that says which, for every input.

## Layout

- `src/` -- the verified library, one module per area of the server:
  accounts and logins (`accounts`, `auth`, `mfa`), roles (`rbac`, `admin`),
  doors and devices (`doors`, `devices`, `schedules`), tools and their
  controllers (`tools`, `toolguard`, `toolpass`, `tool_modules`,
  `tool_tiers`, `training`, `bypass`), the facility map (`places`, `power`),
  money (`membership`, `stripe`, `stripe_events`, `decimal`), outbound and
  inbound integrations (`webhooks`, `groupsio`, `calendar`), content
  (`pages`, `profiles`, `home_links`, `cmi5`, `config`), error answers
  (`errors`), and the operator tools and test fakes (`loader`, `backfill`,
  `cli`, `smtp`, `groupsio_sink`, `stripe_sink`). `text` holds the string
  helpers they share.
- `tests/` -- tests of the library on concrete values.
- `app/` -- `css-sinks`, the test stand-ins for the services the server
  talks to, one subcommand each: `smtp-sink` (sockets and TLS around the
  verified session state machine in `src/smtp.rs`), `groupsio-sink` and
  `stripe-sink` (HTTP routing around the rosters and invoice store of
  `src/groupsio_sink.rs` and `src/stripe_sink.rs`), and `webhook-recvr`
  (prints deliveries, checking their signature with `src/webhooks.rs`).

Calls into outside crates (hashing, HMAC, JSON Web Tokens, URL and UUID parsing, decimals,
dates, iCal parsing, database error classification) go through small
trusted wrappers whose contracts name what the crate computes; everything
built on them is verified.
