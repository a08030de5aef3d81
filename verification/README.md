# fvkit_workspace

The lifecycle of managed local workspaces — repositories, projects,
provisioned multi-repository workspaces, leases, release, inspection,
collection and build contexts — as a library whose rules are proved with
Verus, plus the thin program around it.

## Layout

- `src/` — the verified library.
  - `text`, `ident`, `path`, `seqs`: tokens, namespaces, decimal rendering,
    Unix path components as `std::path` reads them, and the syntactic half of
    the safe-path rule.
  - `model`, `copy`, `error`: the journal's records, field-wise copies and
    equalities, and every refusal with its reported text.
  - `store`, `journal`, `catalog`: store layout, journal admission,
    idempotent request handling, revisions and catalog lookups.
  - `register`, `provision`, `lease`, `collect`, `content`, `inspect`, `git`:
    the lifecycle rules; what Git, the filesystem and the process table
    report is handed in as plain values.
  - `applying`, `registering`, `provisioning`, `collecting`, `verifying`:
    each request (and the check of an existing checkout) as a sequence of
    steps, each given by an exact transition relation. A step function takes what the last Git, file
    system or journal action reported and decides the next action, so the
    order of journal writes and Git changes (pins journaled before any
    worktree, a clone reserved before Git clones, each removal journaled and
    rechecked before Git removes it) is part of the verified library.
  - `cli`: the command line of the client.
  - `laws`: properties that span operations (replayed retries, refused
    payload changes, one recorded operation per attempt, lease fencing and
    takeover, collection eligibility and its reasons, a journal that only
    moves forward one lifecycle move at a time, paths that stay inside the
    managed volume, distinct registrations, and the order the step
    functions keep: actions after their journal writes, Git removals after
    journaled intent, ready and removed records only after every check).
- `app/` — the program: it carries out the actions the step functions
  choose (the journal file and writer lock, Git and `lsof` calls), the protobuf wire messages, the gRPC service handlers and the client
  over the daemon's Unix socket.
- `tests/` — scenario tests that drive the step functions against a
  simulated Git and file system, and unit tests of the library.
