# memory_server

The governing logic of a long-term memory service for assistants: events come
in, memories are inferred from them, versioned, reinforced, cooled down,
archived or promoted, and retrieved again by vector and full-text search.

`src/` is a Verus library. Each public function states its result in
`requires`/`ensures` over mathematical models (`Seq`, `Map`, spec functions of
the domain types), and Verus proves it. Public proof functions state the laws
that span several functions: the lifecycle only moves forward, ranking sorts a
permutation, collapsing retrieval hits keeps one entry per current memory, the
retry rule is bounded, names parse back to what they name, and so on.

Scores that are `f32` values elsewhere are held here by their bits (`u32`);
ordering goes through an order-preserving key of those bits.

Calls into outside crates (uuid, chrono) and into parts of std that vstd does
not specify go through small `#[verifier::external_body]` wrappers whose
contracts say what those crates document.

`app/` is plain Rust around the library: configuration loading, HTTP clients
of the embedding providers, JSON conversion with serde, floating-point
arithmetic, and `main`.

`tests/` runs the library on concrete values.
