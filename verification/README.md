# lovely_injector_nx

The decision logic of a skyline plugin that runs lovely mods in Balatro on the
Nintendo Switch, verified with Verus.

- `src/` is the verified library:
  - `offsets`: the offset table of the supported build, the check of a table against
    the instruction words read from the running game, and the choice of the first
    table that fits;
  - `registry`: the bounded queue through which other plugins wait for the game's Lua
    state, and the laws that every accepted callback is handed out exactly once;
  - `plugin_api`: the client side of the exported C interface (symbol buffers, lookup
    results, version check, error messages);
  - `lua_stack`: the stack layout, error handler offset, hook mask and string tag of
    the Lua calls the plugin rebuilds on top of LuaJIT's internals;
  - `nxfs`: path normalisation, append mode, name sorting and failure messages of the
    `nxfs` file functions;
  - `loader`: the route each Lua chunk takes through the hook on `luaL_loadbuffer`.
- `app/` is the plugin itself: memory accesses, calls into the game, into skyline and
  into lovely, and file system work, each decision delegated to the library.
- `tests/` runs the library on concrete values.
