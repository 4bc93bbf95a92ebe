# whycant

Explains, with evidence, why a filesystem operation is denied for a chosen
identity: it walks the access-control layers a Unix kernel consults, in
order, against a target uid, primary gid and group set, names the first
layer that denies the operation with the raw evidence line behind it, and
offers least-privilege fixes.

## Layout

- `src/` — the library, verified with Verus. Every layer evaluates a
  `Facts` snapshot (metadata, ACL bytes, attribute flags, mount flags,
  capability sets, the active LSM, namespace state, the kernel's own access
  answers) taken for one `(identity, path, op)`; the
  engine folds the layers' outcomes into a `Report`; the renderers write it.
  Contracts are stated over mathematical models (sequences, and a view of
  every report type), and the laws of the fold (earliest proven block wins,
  `--all` never changes the verdict, exit codes follow the verdict, ...) are
  proof functions.
- `app/` — the program around the library: command-line parsing, settings,
  reading the system into a `Facts` snapshot, JSON/TOML encodings, prompts
  and running fixes.
- `tests/` — the library's tests, on hand-built snapshots.

## Exit codes

| Code | Meaning |
|------|---------|
| 0 | allowed; nothing denies the operation |
| 1 | blocked, cause proven |
| 2 | blocked but indeterminate; needs privilege to confirm |
| 3 | target error (ENOENT, not a regular file, broken symlink) |
| 64 | usage error |
