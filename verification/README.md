# explora

The verified core of Explora, a desktop file explorer for local folders, synced
folders and SSH/SFTP locations. Every function under `src/` is checked by Verus
against its `requires` / `ensures` contract.

- `src/` — the library: opaque path references and their registries, versioned
  user preferences, SSH target records and `~/.ssh/config` resolution, host-key
  and authentication decisions, the SSH session and connection bookkeeping,
  directory-listing events, file-operation requests, prompts, batches and
  transfer checks, the step-by-step decisions of connecting, copying trees and
  running one item or a batch of items (state machines that a host drives),
  synced-folder roots and availability, and native-open decisions. Calls into
  `uuid`, `glob`, `russh-config` and `trash` stand behind small trusted wrappers
  whose contracts are stated next to them.
- `tests/` — ordinary Rust tests of the library.
- `app/` — the unverified shell: JSON storage with `serde`, atomic writes with
  `tempfile`, the no-replace rename through `rustix`, directory reads and
  configuration loading, and the coordinator that runs file operations on threads,
  driving the single-item and batch steps over a backend and the verified table of
  operations under way.
