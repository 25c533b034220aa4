# bulks

Composable bulk-iteration, verified with Verus.

A bulk is like an iterator that is always consumed whole, so the number of items it
yields is known before it runs. Arrays, slices, vectors, options and integer ranges turn
into bulks; adapters (`map`, `zip`, `rev`, `chain`, `enumerate`, `flatten`, `array_chunks`,
`intersperse`, `map_windows`, `step_by`, ...) build bulks from bulks; and consumers
(`for_each`, `fold`, `reduce`, `collect`, `collect_array`, `split_at`, ...) run them.

Consumers evaluate a bulk whole before they hand its items on, so the closures of
adapters run on every item before a consumer's own closure runs, and a consumer that stops
early does not spare that work. Walking a bulk backwards (`rev`, `rev_for_each`) runs the
closures of `map`, `inspect`, `mutate` and `flat_map` on the items last item first, as
popping items off the back would; `repeat_n_with(f, n).rev()` calls `f` in turn, so with a
counting `f` it gives `1, 2, .., n`.

Every bulk states, as spec functions, which sequences of items it can yield (`yields`),
how many items that is (`spec_len`), and what it needs to run (`wf`). Each adapter's
contract is given over those, and `lemma_yields_len` proves for every bulk that what it
yields has exactly its length.

Layout:

- `src/bulk.rs`: the `Bulk` trait and its consumers.
- `src/bulk_ext.rs`: the adapter constructors (`BulkExt`).
- `src/adapters/`: one module per adapter.
- `src/array.rs`, `src/slice.rs`, `src/vec.rs`, `src/option.rs`, `src/range.rs`: bulks
  over collections, by value, by reference and by mutable reference.
- `src/from_bulk.rs`, `src/collect_nearest.rs`: collecting into arrays, vectors, options,
  results and strings.
- `src/laws.rs`: properties that relate several operations, proved.
- `src/future/`: the decisions of the asynchronous consumers (when a pass over running
  tasks stops or finishes, and how a reduction pairs up finished values).
- `app/`: the asynchronous consumers themselves, which start and poll the tasks.
- `tests/`: executable tests.
