# cc_switch_tui

The decisions behind a terminal interface that switches coding assistants
between providers: what a key does, what a report of a worker changes, which
requests are sent, when something is drawn, what is read again and what is kept.

`src/` is a verified library. Its functions take and return plain values; their
contracts say exactly what comes out, over models of the state (`AppView`,
`UiDataView`, `CacheView`, `SessionsView` and the like).

| Where | What |
| --- | --- |
| `input`, `key`, `text_edit`, `offset` | keys, the wheel, text fields and their cursors |
| `route`, `help`, `help_words` | screens, the navigation column, help for what is in focus |
| `app`, `data`, `cache`, `app_data`, `dispatch`, `action` | the state shown, what is kept of other applications, what an action does |
| `usage`, `usage_loads`, `usage_workers` | usage figures and the usage log |
| `sessions`, `session_*` | the list of sessions, its manifests, searches and deletions |
| `checks`, `local_env`, `managed_auth`, `proxy`, `quota*`, `skills`, `update`, `webdav` | what the reports of each worker do |
| `settings`, `startup`, `event_loop`, `frame`, `request`, `queues`, `outbox` | choices, the start, the loop and its timing, requests and their queues |
| `chars` | the few functions of the standard library that are taken at their word |

The names that applications are stored under (`AppNames`) and the words of the
help sheet are data that the caller supplies.

`app/` runs it: the terminal, the threads and channels, the database handles. It
takes everything else from an implementation of `Host`.
