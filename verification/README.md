# Reimer resolver

Name resolution and type checking for the Reimer language, from the parsed
program to the typed one, with the proofs that Verus checks.

`resolve` checks a program that is to be run and `resolve_library` one that
others use. Both take the parsed program, the platform, the native layouts of
types and what was computed at compile time, and return the typed program or
the problems in order.

## What is stated

- Each step of the analyzer is a function of its state: its contract gives the
  state after it and its result.
- No step drops a problem, takes a type its definition back, or lets a variable
  be borrowed mutably and otherwise at the same time (`analyzer::growth`,
  `registry::growth`).
- The functions of an accepted program fit together: conditions are truth
  values, operands agree, casts are valid, what `let` and assignments store has
  the type of the variable or place, and what is returned has the type that the
  function declares (`typing`).
- Each call in an accepted program calls a function of the program or of another
  language that the program declares, with as many arguments as it has
  parameters and of their types, and has the type that the function returns
  (`typing`, `analyzer::calling`).
- The elements of each array in an accepted program share a type (`typing`).
  Without a problem, the values of a struct or a variant have the types of its
  fields: the functions that check them promise it (`analyzer::expressions`). What
  fields, dereferences and borrows read has the type of what it is read from
  (`analyzer::fitting`).
- A written type stands for one type however often it is resolved, as long as
  the bounds of every generic type in it still hold and no scoped value is hidden
  in it. Types without arguments need no such condition (`registry::interning`).
- Functions, functions of other languages and instances of generic functions
  bear the numbers from zero up, each once, and come in the order of their
  numbers; so do statics (`analyzer::numbering`, `analyzer::program`).
- To check an expression neither moves nor reserves a variable that the
  expression does not mention (`mention`, `analyzer::sparing`). So a moved
  variable can be assigned again and used, and cannot be updated
  (`analyzer::laws`).
- An accepted `match` leaves no value out (`analyzer::coverage`), types that
  contain themselves are reported (`analyzer::cycles`), and problems are listed
  in order and once each (`analyzer::reports`).
- Scopes, moves, borrows, mutability and instances of generic functions are the
  subject of `analyzer::laws`.

Lists are walked, built and taken apart by loops, so that a program can be as
long as memory allows (`list`).

## Layout

| Place | Contents |
| --- | --- |
| `src/ast.rs`, `src/hir.rs` | the parsed and the typed program |
| `src/registry` | types: names, shapes, traits, storage, reflection |
| `src/analyzer` | declarations, functions, statements and expressions |
| `src/typing.rs` | when typed expressions fit together |
| `src/runtime` | checksums and hashing for generated programs |
| `app` | the platform, and the functions that generated programs call |
| `tests` | whole programs and single parts |
