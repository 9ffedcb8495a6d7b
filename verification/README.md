# fluid_simulation

The verified core of a two-dimensional PIC/FLIP fluid simulation, written in Verus.

`src/` holds the library. Its functions are verified, except the small trusted wrappers
through which `generic_sender` and `pool` call `std::sync::mpsc`:

- `grid` - the two-dimensional grid that carries data around the simulation, modelled as a
  width, a height and the row-major sequence of its cells; reads, writes, fills and per-cell
  traversals are specified cell by cell and coordinate by coordinate.
- `one_dimensional` - the earlier grid type with `get` and `set` only.
- `cell_state` - the engine's grid of cell states (solid walls around air, water where the
  particles are) and the state-grid queries of the engine.
- `engine_thread` - the decisions of the engine thread's loop.
- `generic_sender`, `pool` - the sender abstraction and the object pool over
  `std::sync::mpsc`.
- `engine_config`, `frontend_configuration`, `adapters` - configuration values and types.

`app/` holds the program around it: the yew frontend, serde configuration types, and the
physics of the engine, which computes with floating-point numbers.
