# substrate_mc

A Minecraft server manager with an HTTP and websocket API. The decisions it
takes are written in Verus and proved against their contracts; the program
around them performs the file, network and process work.

- `src/` — the verified library:
  - `create`, `routed`, `indexed_create` — server creation as state machines
    (vanilla servers; servers by install route; servers addressed by id);
  - `install`, `local_java` — Java runtime installation as state machines;
  - `handler` — the registry of servers and the decision for each command;
  - `console` — bounded console histories;
  - `control`, `ws` — websocket control: by server name (`/api/ws/names`)
    and by numeric id (`/api/ws`, JSON or MessagePack frames);
  - `minecraft`, `java` — configuration lookups, start scripts, runtime names;
  - `index`, `files`, `api`, `error`, `text`, `mc_server` — the rest.
- `tests/` — tests of the library.
- `app/` — the program: the web server, the handler task, and the drivers
  that carry out the actions the state machines ask for.
