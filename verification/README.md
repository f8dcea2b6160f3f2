# luma_weaver

The shared model of an LED animation graph editor and the editor's decision logic, written in
Verus: every function in `src/` states its behaviour in `requires`/`ensures` and is proved
against it.

## Layout

- `src/` — the verified library.
  - `text`, `value`, `json` — text helpers, runtime values (decimals stand for floats), and a
    token form of JSON values.
  - `schema`, `catalog`, `legacy_catalog`, `inference` — node schemas, the built-in node
    catalog and the earlier one, with the exact shape of every entry and distinct ids, and
    output-kind inference rules.
  - `document`, `layouts`, `validation` — graph documents, layout assets and the structure of
    uploaded layout files, and graph validation with inference across edges.
  - `exchange`, `protocol`, `events`, `subscriptions` — exchange and clipboard file headers, the
    wire protocol and binary frame codec, event subscriptions and their reconciliation.
  - `keyed`, `session`, `messages` — a verified text-keyed map, the editor's runtime caches
    (runtime modes, live values, plot history, preview frames, diagnostics), and the routing of
    server messages into them.
  - `navigation`, `menu`, `preview`, `uploads`, `editor`, `history`, `graph_actions`,
    `import_export`, `clipboard` — routing, the node menu, preview grouping, asset uploads,
    parameter editing, undo/redo, graph actions, imports, copies and pastes.
- `tests/` — tests run against the compiled library.
- `app/` — ordinary Rust around the library: serde copies of the wire types, JSON and float
  conversions, and the parts that work on floats (such as moving a pasted fragment).
