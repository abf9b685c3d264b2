# bot_core

The verified core of a bot that trades the five-minute up-or-down markets of Polymarket.

- `src/` decides and computes: settings, market discovery, order books, order signing, entry and
  exit, settlement and claims, the logs, the chat commands. Every function states what it returns,
  and Verus proves it. What depends on the network, the clock or a file is handed in, and what is
  to be done next is handed back.
- `app/` is the program around it: it fetches, waits, sends and writes. Arithmetic on doubles is
  done there; the core carries doubles by their bits and compares them.
- `tests/` runs the core on concrete values, with the real crates behind it.

A few functions of outside crates are trusted to do what the contract above their call says. They
are marked `external_body` or `assume_specification`, each with a comment on what is claimed.
