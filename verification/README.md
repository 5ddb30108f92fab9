# nestr_cli

A command-line client for the Nestr API (workspaces, circles, roles, tensions,
projects, labels, inbox, notifications, webhooks), with OAuth browser login,
named profiles and credentials kept in the OS keyring or in the profile file.

Layout:

- `src/` — the library, written in Verus and verified: input validation
  (prime labels, profile names, API paths), the read-only and confirmation
  gates, configuration and profile resolution, the OAuth PKCE and callback
  logic, token storage decisions, request bodies, the JSON model the commands
  work on, and every text rendering (tables, detail views, footers, HTML
  cleaning). Public proof functions state the library's laws.
- `tests/` — tests of the library on concrete values.
- `app/` — the program: argument parsing, HTTP, files, the keyring, the
  browser and the terminal. It hands plain values to the library and prints
  what comes back.
