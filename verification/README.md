# russhd-pty

A minimal SSH daemon that runs one operator-configured command inside a real PTY
for every session. It checks no credential: an optional list of user names
restricts who may connect, and the default address is loopback.

    russhd-pty [-p PORT] [-l ADDR] [--allow-ssh-usernames a,b] 'command and args'

## Layout

- `src/` is the library, verified with Verus: the configuration, the answers to
  the client's requests, the pumps and the supervisor of a session, the plan for
  starting a child, and the search for the host key. What needs the system is
  asked for by a step or an effect, and its outcome is handed back as an event.
- `app/` is the daemon around it: sockets, descriptors, processes, logging.
- `tests/` runs the library on concrete values.

The trusted part of the library is small: calls of `shlex::split`,
`String::from_utf8_lossy`, `PrivateKey::random` and the constants of `libc`. Each
stands in a function of its own, whose comment says what is claimed of it.
