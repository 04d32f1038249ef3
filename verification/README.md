# upub

The logic of μpub, a small federated ActivityPub server, as a library whose
behaviour is stated in contracts and proved with Verus.

## Layout

- `src/` — the verified library:
  - `text` — character-sequence primitives (split, trim, join, replace) and their specifications
  - `crypto` — the calls into `openssl`, `base64` and `sha256`
  - `httpsign` — HTTP signatures: the `Signature` header, control strings, signing and verification
  - `context` — the instance: domain, base URL, ids of local and remote entities, relays
  - `config` — configuration and its defaults
  - `auth` — who is asking, and what they may see
  - `addressing` — who an activity is addressed and delivered to
  - `fetch` — what a fetched document turns out to be, signed requests, WebFinger
  - `normalize` — documents turned into stored records
  - `process` — decisions taken on incoming activities
  - `outbox` — decisions taken when a local user posts
  - `selector` — timeline entries, batches of attachments, tags and mentions, timeline queries
  - `builders` — paged collections
  - `dispatch` — the delivery worker as a state machine
  - `admin` — new users and the server's own actor
  - `cli` — maintenance commands: relays, nuking, fixing counters, refreshing, cloaking, test data
  - `model` — the stored records
- `tests/` — tests run against the compiled library
- `app/` — the command line around the library: configuration files, HTTP, argument parsing
