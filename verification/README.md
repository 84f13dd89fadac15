# wgslsmith

Tools for generating random WGSL shaders and testing WGSL compilers with them,
written in Verus: the library under `src/` states what each function does in its
contract and Verus proves it.

## Layout

- `src/ast`: the shader syntax tree, the types of builtin functions and operators,
  and `writer`, which prints a tree as shader source.
- `src/simple_ast`: a smaller syntax tree with its builtin overloads and printer.
- `src/concretizer`: evaluates constant expressions and replaces those whose value
  would be invalid by a default value.
- `src/flow`: instruments a shader with counters that record the control flow taken.
- `src/generator`: the generator's decisions that do not depend on its context: the
  builtin function table, the scope of symbols, presets, statement choice,
  structures, and the initial data of uniform buffers.
- `src/data_race`: a generator of shaders that race on shared memory.
- `src/layout`, `src/buffer_check`, `src/metadata`: buffer layouts and the
  comparison of the buffers that different implementations produce.
- `src/harness`: configurations of the test harness, their ids, and the protocol of
  its client.
- `src/fuzz`: what the fuzzing loop decides about a harness run.
- `src/preprocessor`, `src/strings`: source rewriting and string helpers.
- `app/`: the `wgslsmith` command (fuzzing loop, data race generator,
  preprocessor, harness client): processes, files, sockets and floating point.
- `tests/`: tests of the library.

Floating-point arithmetic and the spelling of float literals are supplied by the
caller as functions on bit patterns; `app/float.rs` holds them.
