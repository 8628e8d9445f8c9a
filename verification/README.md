# samp_direct

Direct, verified access to the state of a running SA-MP client: its player
pools, sync records, text labels, textdraws, gangzones, chat, dialog and
command table, and the network envelopes and markers the host sees.

The library works on a copy of the client's memory (`memory::ProcessMemory`,
a list of byte windows) and on the answers of the client's own functions,
which the host calls. Every read states in its contract exactly which bytes
it reads and what it returns for them; every change is returned as a plan of
`MemoryWrite`s that the host performs.

Layout:

- `src/` — the verified library. Build identities and profile data
  (`profile`, `profiles_r1`, `selection`), the memory model (`memory`),
  R1 reads and edits (`r1_*`), profile-driven reads (`label_reads`,
  `local_reads`, `native_*`), the checks between native calls
  (`player_calls`, `r1_player_calls`), the operations that alternate calls
  of the client's functions with decisions, as step functions from the last
  answer to the next call (`native_steps`, `r1_steps`, `remote_steps`,
  `local_steps`, `remote_info_steps`), the
  checked calls of single client functions (`r1_actions`,
  `native_actions`), the write plans before forced syncs (`r1_force_sync`,
  `native_force_sync`), bit streams and packets (`bits`,
  `bitstream`, `packets`, `markers`), and the host's cached state (`cache`).
- `app/` — the host side: copies of live memory, the application of write
  plans, and the calls of the client's functions that the library's step
  functions and checks hand it.
- `tests/` — tests that run the library on hand-built memory.
