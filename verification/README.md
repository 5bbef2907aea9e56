# maki_core

The decisions behind two parts of an agent program, written in Rust and verified with Verus:

- the multi-session dashboard: which line each session gets, in which order the lines stand
  (`sessions`, `listing`, `removal`), and what keys and arriving listings come to (`keys`,
  `dashboard`, `openings`);
- the `ctx` object that the Lua code of a tool gets: what a nested call inherits (`context`), which
  kind of call has which method, and what each method decides (`lua_ctx`, `lua_methods`, `task`,
  `paths`).

`channel` and the first items of `keys` and `context` declare what is believed of `flume`,
`crossterm` and `serde_json`. Functions whose names start with `law_` state what holds of the
library as a whole.

`app/` connects the library to a terminal list widget, a session store and a Lua state. Paths in the
library are Unix paths; on another system `app/` leaves their meaning to that system.
