# libremotestylus

Pointer events (mouse, finger, stylus) carried from an event source to an
event target over the network, with the protocol logic verified in Verus.

- `src/` — the verified library: pointer event types and mouse button sets
  (`event`), messages and peer addresses (`protocol`), the source's handshake
  state machine (`source`), the target's answers (`target`), and what a
  Windows target injects for each event (`injection`). The proof functions
  named `lemma_*` state the protocol's and the injector's laws.
- `app/` — the processes around it: MessagePack encoding (`wire`), the laminar
  sockets and channels of the source and target processes, the Windows client
  that performs the injections, and the iPadOS application shell.
- `tests/` — tests of the library on concrete values.
