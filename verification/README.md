# solidity

A verified core of a Solidity front end, written in Verus.

- `src/` is the library, verified: the abstract
  syntax of Solidity and Yul and the source text it prints to, source
  locations and line tables, names and specifiers, the selection of `solc`
  versions from `pragma solidity` constraints, syntactic comparison of
  source units, C3 linearization of inheritance, and the normalization
  passes (substitution of identifiers, expansion of modifier invocations,
  elimination of named arguments and of using directives, unfolding of
  imports under an alias, resolution of `super` along the linearization,
  unrolling of tuples of one component, merging of
  pragmas). Calls into `node-semver`, `regex` and
  `itertools` stand behind small trusted wrappers whose contracts say what
  those crates document.
- `tests/` runs the library on concrete syntax trees.
- `app/` holds what is not verified: reading files, running `solc-select`
  and `solc`, and writing results.
