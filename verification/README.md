# facet_reflect

Read-only views of values with run-time type information, on top of `facet-core`.

A `Peek` pairs a pointer with the shape of the value it points to. The library decides from the shape
what may be done with the value, and Verus proves those decisions: whether its lifetime may be
shrunk or grown, which kind of value it is, how its text or bytes are laid out, what its wrappers
hold, and who owns the memory of a proxy during serialization.

- `src/` is the verified library. It never touches the memory behind a view: where a value has to be
  read, compared or released, the caller hands in a function, and the contract says on which
  arguments it is called. `src/laws.rs` holds what is proved across functions.
- `app/` supplies those functions, through the unsafe functions of `facet-core`, and the formatting
  and comparison traits.
- `tests/` runs the library against real shapes.

What is believed of `facet-core` without proof stands in `src/shape.rs`, and in `Peek::new`, which
takes the shape of a value from its `Facet` implementation. One assumption goes beyond what
`facet-core` documents: that the functions for variance and name which such a shape and the shapes it
refers to carry return, and do the same whenever they are called. `shape::is_valid` is its name.
Functions that compute a variance or write a type name require it.
