# librazer

Control logic for Razer laptops (performance modes, CPU/GPU boost, fans,
lid logo, keyboard backlight, battery care), verified with Verus.

The library does no I/O.  Each operation in `src/command.rs` is a function of
the replies received so far: it returns `Step::Send(request)` when another
request packet is due, or `Step::Done(outcome)`.  Its `ensures` states the
whole exchange over spec functions of the same name with `_step` appended.

- `src/types.rs`: the protocol's values and their byte encodings.
- `src/packet.rs`: request and reply packets.
- `src/device.rs`: what the commands need to know of a laptop model.
- `src/command.rs`: the commands as request/reply exchanges.
- `src/properties.rs`: properties across operations (read-back of settings,
  required modes, number of exchanges).
- `src/menu.rs`: the decisions of the interactive menu.
- `app/`: the terminal menu and the loop that runs a command against a
  device (`BladeDevice`), outside verification.
