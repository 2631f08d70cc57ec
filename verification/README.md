# conmon

A monitor for OCI containers. It launches a container runtime, relays the stdio of the
container, forwards sd-notify messages to the host, and reports how the runtime and the
container have ended.

`src/` holds everything that the monitor decides, verified with Verus. `app/` makes the
system calls. Where an operation has to alternate the two, the library offers a function
that takes an event (what just happened) and returns a step (what is needed next), and
`app/` runs the loop.

| module | what it holds |
| --- | --- |
| `socket_buffer` | the rolling buffer of a socket, and the lines in it |
| `remote_socket` | sockets and other descriptors that are read from |
| `unix_socket` | listening sockets: where they are put, bound, accepted on |
| `socket` | what is done with data that arrives |
| `notify` | the sd-notify lines that are relayed |
| `session` | the session: `launch`, `start`, `idle`, `children`, `exit` |
| `path`, `text`, `bytes` | paths as byte strings, texts, copies |
| `os`, `error`, `config` | system interface values, errors, configuration |

Public proof functions whose names begin with `law_` state what holds across operations.
