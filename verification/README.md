# tmux-session-bootstrap

`ts` is a small helper for creating and entering a predictable tmux workspace.
`ts my-project` makes a session with three windows, `agent`, `vim` and
`terminal`, turns automatic window renaming off, and enters the session: inside
an active tmux client that client is switched to it, elsewhere the terminal is
attached. A session of the name that is there already is left alone. A partially
created session is removed if setup or attachment fails.

## Layout

`src/` is the library: every decision of `ts`, with contracts that Verus proves.
It starts no process. `run` makes its requests in a `Conversation`; where a reply
is missing it stops and hands out the request, the caller runs it and records the
reply, and `run` is called again. `app/` is that caller.

| module    | what it holds                                                       |
|-----------|---------------------------------------------------------------------|
| `text`    | decoding and trimming                                               |
| `error`   | errors, their messages and exit codes                               |
| `cli`     | the command line                                                    |
| `tmux`    | commands, requests, replies, and the conversation they are part of  |
| `script`  | the model of a conversation made of steps                           |
| `session` | making a session and removing it after a failure                    |
| `entry`   | entering a session                                                  |
| `run`     | the command as a whole                                              |
| `resume`  | proof that a repeated run goes on where the last one stopped        |
| `laws`    | what holds of every run                                             |

Not proved, but taken from the documentation of the standard library: what
`str::trim` and `String::from_utf8_lossy` do.
