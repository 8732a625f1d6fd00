# auto_enums

The rules behind two attributes:

- `#[auto_enum(Trait, ...)]` on a statement, function or expression wraps
  each branch that can produce its value (match arms, `if`/`else` blocks,
  `break`s of a `loop`, marker macros, and, in functions and closures,
  `return`s or `?`s) in a variant of a generated enum that implements the
  given traits.
- `#[enum_derive(Trait, ...)]` decides, for such an enum, which traits are
  implemented directly, which requirements are added, and which names are
  handed on to `#[derive]`.

## Layout

- `src/` is the verified library (Verus). It works on a model of the syntax
  (`ast`): the state of one attribute (`context`), the questions asked of
  syntax (`scan`), the rewriting of the last expression (`last_expr`,
  `loop_break`), the walk over a statement or expression with nested
  attributes (`visitor`), the attribute on its input (`expand`), the table of
  derivable traits (`derive_table`), the planning of `#[enum_derive]`
  (`enum_derive`), the traits read from `impl Trait` types under the
  `type_analysis` feature (`type_analysis`), the shape that `Transpose` asks
  of an enum (`transpose`), and the laws proved about them (`walk_laws`,
  `enum_derive_laws`).
- `app/` reads token streams with `syn` into the model, hands them to the
  library, and writes the result back with `quote` and `derive_utils`.
- `tests/` runs the library on small syntax trees.
