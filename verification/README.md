# userd

The library of a user-management daemon, verified with Verus.

- `src/types.rs`: users, requests (`Command`), answers (`Response`) and errors.
- `src/users.rs`: lookups by uid and by name, and the password check.
- `src/password.rs`: the Argon2 password hasher (the `argon2` crate).
- `src/manager.rs`: the daemon's request handling over its configured users.
- `src/commands.rs`: request handling against the users file.
- `src/user.rs`: the users file's configuration and the text a new user adds to it.
- `src/client.rs`: what a client makes of the daemon's answers.
- `src/config.rs`: the configured users.
- `src/text.rs`: text helpers.
- `src/laws.rs`: properties that span the functions above.

`app/` holds the daemon's program, its socket client, the users-file I/O and
the serde copies of the library's types.
