# syncplus

The verified decision logic of SyncPlus, a safety-first desktop tool that
reviews and applies local and SSH file synchronisation. The executable
functions in `src/` carry `requires`/`ensures` contracts that Verus proves;
the exceptions are thin trusted wrappers around `String::push`,
`Path::is_file` and the `Debug` formatting of a text.

## Layout

- `workflow.rs`, `calls.rs`, `journal.rs`, `store.rs`, `scope_lock.rs`, `failure.rs`:
  the Sync Run lifecycle (precheck, Peer Scope Lock, Fresh Analysis,
  explicit confirmation, journaled execution with bounded retry, Safe Delete
  only after verification, reconciliation) and the Run Evidence Store.
- `ssh.rs`: the same lifecycle over an SSH backend, with remote Trash
  provenance checks.
- `resume.rs`, `mirror.rs`, `resolution.rs`, `conflict_review.rs`: resuming
  interrupted runs, Mirror deletions, Resolution Runs and Conflict Review.
- `scheduler.rs`, `manual_run.rs`: unattended and manual runs.
- `forms.rs`, `review.rs`, `diagnostics.rs`: profile forms and their
  round trips, plan review before Execution Confirmation, and diagnostics.
- `chrome.rs`, `desktop.rs`, `help.rs`, `labels.rs`, `status.rs`,
  `notification.rs`, `theme.rs`, `fonts.rs`, `folder_dialog.rs`, `icon.rs`:
  desktop navigation, help, copy, colour tokens and small desktop helpers.
- `profile.rs`, `model.rs`, `text.rs`: the shared data model and verified
  text helpers.

The effects a run needs (file transfers, hashing, the filesystem, SSH) are
reached through the `RunEnvironment` and `SshRunBackend` traits; the
contracts state what the library does with whatever they report. Every
call to them goes through `calls.rs`, which keeps a ghost record of what
each call was given and answered, so the run contracts also state the
order and arguments of those calls: the first precheck and the recheck
after confirmation, transfers only after that recheck, and a source
removal only right after its journaled start.

`tests/` holds scenario tests run against the compiled library.
