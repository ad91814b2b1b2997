# entity_server

The rules of a map's entities, verified with Verus: which keys, inputs and
outputs each class has, what it does with an input, a touch, a think or the end
of a move, and what it asks of the server.

- `src/` is the library. `class` and `classes/tables` hold the class table,
  `base` what every entity understands, `classes/` the classes, `dispatch` the
  choice of the class that an input goes to, `context` the server as a handler
  meets it, `list` the entities. `classes/declared` and `laws/` state what holds
  of the classes across calls.
- A handler's contract is stated over a `Step`: the class state, the entity and
  the server before the call, and what the transition makes of them.
- Numbers are the bit patterns of single-precision floats. The library compares,
  negates and clamps them; sums and products are computed outside and handed in,
  as the `*Figures` of a class.
- `app/` is the floating-point side: it computes the figures, dispatches events,
  tells a map's author what is amiss and writes values out.
