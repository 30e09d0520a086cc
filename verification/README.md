# desktop_todo

The verified core of a tray-resident desktop to-do widget for Windows and of
its per-user maintenance helper, written in Verus. The public functions of
`src/` carry `requires`/`ensures` contracts over mathematical models (`Seq`,
`Set`, `int`), and everything in `src/` is proved by Verus; `app/` is the thin command-line shell
that reads the disk and the task database and hands the library plain values.

## Layout

- `src/maintenance/` — installation receipts and their validation policy,
  root and ancestor pinning, managed resource identities, the whole install
  (plan, then completion into an `Installed` receipt) and the whole
  uninstall (start, then the removal plan), launch gating, consent steps and
  the helper's command line.
- `src/admission.rs` — how a launch is admitted (managed, development,
  unmanaged) or refused, and the uninstall hand-off latch.
- `src/settings.rs`, `src/product_commands.rs`, `src/product_window.rs` —
  the settings document (Quick Links, legacy homepage migration,
  normalization), tray/menu actions and window placement rules.
- `src/tasks.rs`, `src/task_day.rs`, `src/reviews.rs`, `src/report.rs` —
  task validation, the task day and its rollover, review periods and the
  aggregation of a review report (days, totals, categories).
- `src/appearance/` — managed image assets, image signatures, `data:` URLs
  and a base64 codec.
- `src/weather.rs`, `src/diagnostics.rs`, `src/qa_diagnostics.rs`,
  `src/locale.rs`, `src/platform/` — weather cache policy, the support
  diagnostics text, QA log records, locale resolution, and the pure rules of
  the Windows host (mouse input decoding, input-target repair, backdrop
  material, tool-window frame).
- `src/text.rs` — the string helpers every module builds on.
- `tests/` — executable tests of the library.
- `app/` — the command-line front end (launch admission from the receipt on
  disk, the uninstall driver that reads what it needs, lets the library
  decide the whole uninstall and carries out its plan, review
  reports from the SQLite task store).

Calls into `uuid`, `url`, `chrono` and `sha2` sit behind small trusted
wrappers whose contracts state what those crates document; everything
around them is verified.
