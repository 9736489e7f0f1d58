# hunter

Mutation testing for Noir (and Solidity) projects, written in Verus.

`src/` is the verified library:

- `token` — the operators, their mutation rules and spellings, the tokens a
  scan finds (`MetaToken`) and the first-pass mutants; laws on the rules
  (no mutation is the identity, most mutations are involutions, spellings
  identify operators, the pattern table names each operator once).
- `utils` — rewriting source bytes (`replace_bytes`, with the law that
  writing an operator's mutation substitutes exactly its spelling, and that
  mutating back restores the text), and the scan of a file's text for
  operators outside its comments, unit tests and string literals
  (`select_tokens`, `file_tokens`, `collect_tokens`).
- `matching` — the one call into the `regex` crate.
- `handlers::mutator`, `handlers::scanner` — mutants of a campaign, applying
  a mutant to a file's bytes, and the scan of a set of sources.
- `processor`, `parallel` — judging a mutant from its build and test runs,
  and the campaign's tally.
- `reporter`, `file_manager`, `cli`, `filters`, `config`, `languages` — the
  decisions behind the reports, the source-file search and the command line,
  and the settings of each language.
- `mutant`, `stages` — the first form of a mutant and the first outline of a
  campaign.

`app/` is the program around it: command-line parsing, reading and copying
files, running `nargo`/`forge`, and printing tables and progress bars.
