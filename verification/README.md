# lead_chat

The chat engine of a desktop application that drives coding agents: one engine per
timeline, each talking to an agent over the stdin of a resident process, one process per
turn, an app-server connection, or a connection backend.

`src/` is the verified library. It decides; it does no I/O. It reads the agents' dialects
(`proto`), keeps the queue and the turns (`turn`, `turn_end`), admits human messages
(`sending`) and unseen ones (`hidden`, `delivery`), streams rows (`streaming`, `rows`,
`consumers`), launches, interrupts and stops (`spawning`, `control`), rewinds (`rewind`),
recovers after a restart (`revive`), and says what goes to the frontend (`push`). Every
function carries a contract that Verus proves; what relates several functions is stated
as proof functions whose names begin with `law_`.

`app/` is the rest: processes, sockets, the database and the frontend, behind traits.

What is believed without proof of other crates is declared in `json` (serde_json),
`registry` (dashmap, crossbeam-skiplist), `sending` (base64) and `text` (comparing
strings).
