# minilink

A tactical datalink prototype: clients exchange messages through a relay
server over mutually authenticated TLS.

- `src/` is the library, verified with Verus: the text protocol between
  clients and server (`protocol`), the server's decisions for each client
  connection (`session`), the statements against its user table (`sql`) and
  what they make of that table (`registry`), its
  activity log (`journal`), its operator console (`console`), the client's
  reactions to the server (`client`), the launch arguments and JSON
  configuration (`config`), the TLS credentials (`tls`) and the character
  operations they rest on (`text`).
- `app/` is the program around it: sockets, TLS sessions, the SQLite
  database, the log file and the terminals, driven by the library's
  decisions.
- `tests/` exercises the library on concrete values.
