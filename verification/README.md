# oryxis_app

The view-model logic of the Oryxis desktop SSH client, verified with Verus.

Each screen of the client decides what to show from the application
state: which rows a context menu has, which label a setting reads as,
which hosts a search keeps, in what order the monitoring table lists its
hosts, whether a WebDAV URL would send a password in the clear. This
crate holds those decisions as functions from plain values to plain
values, each with a `requires` / `ensures` contract over spec functions,
and Verus proves every body against its contract. The rendering itself
(the widget toolkit) is not part of the crate.

Layout:

- `src/` — the verified library, one module per screen or concern
  (`menus`, `sftp_menu`, `files_tab`, `tmux_tab`, `snippets`,
  `port_forwards`, `monitor`, `dash_sort`, the `settings_*` modules, …),
  plus `text` and `search`, the character-sequence helpers and the
  order-preserving filter the screens share.
- `tests/` — executable tests of the library on concrete values.
- `app/` — the unverified glue: floating-point layout, the drive probe,
  the read of the local time zone's offset, and the conversions that
  hand the library integers.
