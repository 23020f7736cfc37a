# DeadlockShock companion

The companion follows Deadlock's console log, decides which of the events that
the DeadlockShock mod reports there cause a shock, and sends shocks and test
sounds to PiShock or OpenShock.

- `src/` is the core, written and proved in Verus. It takes plain values and
  says what is to be done next: which request to send, which bytes to read,
  which state to write. Its contracts are stated over sequences, maps and
  mathematical integers; the public proof functions state what holds across
  several of its functions.
- `app/` is the program around it: the window, files, threads and HTTP.
- `tests/` runs the core on concrete values.

What the proofs rest on besides Verus itself is a handful of declarations with
a contract and no proof, each with a comment that names the function behind it:
`text.rs` (strings of the standard library), `settings.rs` (random numbers) and
`icon.rs` (pictures).
