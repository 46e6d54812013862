# lightd

The rules of a daemon that runs containers, proved with Verus, and the daemon around them.

Containers are disposable: a UUID and its files last, the container of the engine behind them is
replaced whenever its configuration changes. `src/` decides what is done and in which order;
`app/` does it.

## The library

- `text`, `number`, `table`, `order`, `duplicate`: texts, numbers, tables and stable sorting.
- `models`, `state_manager`: what the daemon knows of containers, and what requests hold.
- `firewall`: rules of containers, the calls of iptables that enforce them, and what those calls
  leave in its tables.
- `docker`: snapshots, storage volumes, and descriptions of containers for the engine.
- `services`: operations on containers. Each is a chain of stages: a stage takes the reply to
  the last outside call and gives the tasks that come next, with the stage after them or the
  result. `async_power` starts, stops, kills and restarts.
- `handlers`: what requests are answered.
- `websocket`: what a client that looks at a container is told.
- `outside`: the calls into other crates. What is said of their results is not proved.

Every function says in its contract exactly what it returns or changes. Public proof functions
whose names begin with `law_` state what holds across functions: that operations unlock what they
lock, whatever fails, that a container keeps its identity when it is made anew, that a firewall
taken away leaves the tables as they were.

## The daemon

`app/` holds the HTTP handlers, the work on the engine, on files and on iptables, the JSON forms of
the library's types, and the figures that need floating point. Services that other parts of the
daemon provide are traits in `app/daemon.rs`.
