# ephemera

The logic of an Ephemera node, verified with Verus: nodes collect messages from
clients, put them into blocks, and agree on each block with a reliable broadcast
in which every node signs what it accepts.

## Layout

- `src/` — the verified library.
  - `block/` — messages, blocks and their hashes, the message pool, the block
    producer and the block manager (which blocks are proposed, signed, accepted
    and committed).
  - `broadcast/` — the Bracha reliable broadcast: quorum thresholds, the
    per-block echo and vote contexts, the broadcaster, block signatures and the
    membership snapshots of the cluster.
  - `broadcast_protocol/` — the three-phase (pre-prepare, prepare, commit)
    broadcast of client messages and the signer that collects signatures.
  - `api/` — the types that clients see and the application interface.
  - `ephemera.rs` — the decisions of the node's main loop: each event and, where
    the application is asked, its answer, to the next state and what to send.
  - `config.rs`, `cli/` — configuration values, file paths and the commands that
    edit them.
  - `crypto.rs`, `hex.rs`, `encoding.rs` — keys, signatures, hashes, base58, hex
    and the JSON bytes that are hashed and signed.
  - `dht.rs` — queries of the distributed hash table that wait for the network.
  - `cache.rs` — what the LRU caches of the library keep after a `put`.
- `tests/` — tests that run the library with the real outside crates.
- `app/` — the command line program: argument parsing, configuration files.

Calls into outside crates (ed25519 and peer ids, BLAKE2b, base58, hex, LRU
caches, UUIDs, time, the home directory) are small wrappers whose contracts are
trusted; every other function carries a contract that Verus proves.

Two choices are worth knowing:

- With `n` peers and `f = n / 3` rounded down, a node votes for a block after
  strictly more than `n - f` echoes or strictly more than `f` votes, and delivers
  it after strictly more than `n - f` votes, its own included.
- Blocks and messages are hashed and signed over a JSON encoding that the
  library writes itself and states in its specifications.
