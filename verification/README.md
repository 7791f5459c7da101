# workspace-cli

A command-line client for Google Workspace APIs (Gmail, Drive, Calendar,
Chat, Contacts, Slides, Tasks), built around a library verified with Verus.

- `src/` is the verified library: request builders and URL encoding, client
  settings and API errors, paging decisions, HTML detection and conversion,
  calendar event construction, Gmail message summaries, Slides colour and
  shape plans, and the task tree listing. Every public function carries a
  contract that Verus proves.
- `app/` is the program around it: argument parsing, HTTP, JSON output and
  the paging loops. It hands the library plain values and prints what comes
  back.
- `tests/` runs the library on concrete inputs.
