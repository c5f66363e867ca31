# graph_explorer

The model behind a graph-style file explorer, verified with Verus.

`src/` is the verified library:

- `fs_entry` — file entries, their category (by extension, ignoring ASCII case)
  and badge, the size label (`format_bytes`, rounded exactly as `{:.N}` rounds
  the double-precision quotient), the age label, and how a freshly read
  directory listing is taken in (directories first, then by lower-cased name,
  stable).
- `numeric`, `text` — decimal writing, rounding to nearest with ties to even,
  ASCII case folding, character comparison and substring search.
- `sorting` — lexicographic keys and a stable insertion sort, with proofs that
  it sorts, keeps equal keys in order and permutes its input.
- `table` — the sort state of the directory table and the order of its rows.
- `layout` — layout kinds, the grid the top-down packing fills, which entries a
  layout nests and how many nodes it places.
- `workspace` — navigation state: back/forward history, drilling down, going
  up, roots, expansion, selection, filter and the status line.
- `panels` — breadcrumbs, status-bar selection text, file preview lines, node
  size tiers and the keyboard map of the canvas.
- `external` — the standard-library calls (Unicode lower-casing, path parent,
  file name, extension, components and join, line splitting) behind trusted
  wrappers; paths are compared component by component, as `Path` compares
  them.

`app/` is the GPUI program around it: windows, panels, file-system access and
the floating-point geometry of the layouts.

`tests/` exercises the library on concrete values.
