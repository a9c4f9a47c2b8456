# tcnet

A TCNet protocol library (protocol version 3.5) whose behaviour is stated in
Verus contracts and proved, and a listener program built on it.

- `src/` is the verified library: the wire format of every packet it reads
  or writes (`wire`, `header`, `packets`), the registry of nodes on the
  network (`registry`), the authentication handshake bookkeeping (`auth`),
  the decisions of a participating node (`node`: what to report and what to
  send for each received packet and timer tick) and the text that the
  listener shows (`listener`).
- `app/` is the listener program: command-line arguments, logging, sockets,
  timers and the event loop that performs what `NodeCore` decides, plus the
  floating-point ratios of the packets.
- `tests/` runs the library on concrete packets.
