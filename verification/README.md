# bot_client

Bots that join a block game server, chat, swing their arms, walk about, look
around and fall.

- `src/` is the library, verified with Verus. It holds everything a bot decides:
  how it logs in, what it answers to each packet, what it does in each tick.
  A bot is plain data. Packets, the time, luck and the values of formulas are
  handed in as plain values, and what is to be sent or done is handed back.
- `src/laws.rs`, `src/motion.rs`, `src/course.rs` and `src/habits.rs` state what
  holds of a bot whatever happens.
- `src/random.rs` and `src/crypt.rs` hold the calls to other crates that the
  library relies on: random numbers, UUIDs and RSA encryption.
- `app/` is the program: the command line, the network, the packets of the
  protocol crate and floating point arithmetic.
- `tests/` runs the library.

Floating point numbers are kept as their bits. Comparisons are done on the bits;
a formula is handed out as a term, and its value comes back as bits.
