# deltachat_core

Verified core logic of a chat messenger, written in Verus: contact addresses and
names, vCards, contacts and their origins, events and their C view, login parameters
and their legacy storage, the configuration of transports, IMAP sequence sets, blob
names and image recoding decisions, automatic relay management, and the types that
the JSON-RPC interface hands to clients.

- `src/` is the library, verified by Verus: each executable function states in a
  contract what it returns (the `From` impls through their `from_spec`), save two
  trusted wrappers around the clock and the local time zone, of whose results
  nothing can be promised. Calls into outside crates (regex, chrono, sha1, rand,
  percent-encoding) and into std where Verus knows nothing of it (paths, case
  mapping, the clock) go through small trusted wrappers whose contracts say what
  those crates and std document.
- `tests/` runs the library on concrete values.
- `app/` holds what the library cannot: colors computed in floating point, the C
  form of event data, the JSON forms of the client types, the bridge to the
  legacy configuration store, and the loops that run against the network and the
  database: fetching autoconfiguration, adding relays, adding, looking up and
  listing contacts. Each of them leaves its decisions to the library.
