# strikeface

The core of a terminal lock screen and login greeter, verified with Verus.

- `src/clock.rs`: the block clock, digits drawn from 6x7 bitmaps and slanted.
- `src/greeter.rs`: the login screen's state and its reaction to each key.
- `src/cli.rs`: the command line (`--session`, `--user` / `-u`).
- `src/pam.rs`: PAM return codes, the errors made of them, and the password
  conversation.
- `src/scrambler.rs`: wiping secrets out of buffers.
- `src/session.rs`: the environment and command line of a login session.
- `app/`: the terminal program around the library: terminal drawing, the
  clock's time source, PAM calls, and process management.
