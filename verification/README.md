# herdr — Git panel library

The Git side of the herdr terminal workspace manager, as a library whose behaviour is stated in
contracts and proved with Verus: parsing `git` output (porcelain status, unified diffs, stash
and branch lists), the commands it runs (always as argv), the server's Git API planning, the
panel's state machines (keys, pickers, prompts, background results), which clients watch which
workspace's panel, and the layout of everything the panels and bars draw.

- `src/` — the verified library, one module per concern (`diff`, `worktree_status`, `lists`,
  `actions`, `commit_agent`, `git_api`, `panel_interest`, `refresh`, `sidebar_git`,
  `git_modals`, `client_git`, `picker`, the layout modules `panel_view`, `sidebar_layout`,
  `sidebar_view`, `diff_view`, `diff_overlay`, `picker_view`, `mode_bar`, `overlay_bars`,
  `prefix_hint`, `shell_plan`, and the shared `text` helpers).
- `tests/` — tests of the library on concrete values.
- `app/` — unverified glue: running `git` (with the background refresh's one `git status`
  per repository root) and commit agents, JSON wire types, terminal keys, and painting the
  mode bar, the Git panel and the diff overlay's body into a terminal buffer.
