# rusem

A verified core of Russian grammar. It names the categories a word form
states (case, number, gender, animacy, tense, aspect, mood, person), reads the
dictionary indexes of nouns and verbs, writes a word out cell by cell from its
dictionary form and its index, and reads a written form back into the cells
that could have written it.

Every function in `src/` carries a contract that Verus proves: what each
paradigm writes is stated over models on sequences of characters, and the
laws that tie the functions together stand as public lemmas beside the code
they speak of. A written cell reads back into the cell that wrote it; the
readers that lower their input first do so for any word of lower-case
Cyrillic letters, which std lowers to itself. A spelling with `ё` reads as the
same spelling with `е`. Agreement is a partial equivalence: symmetric,
transitive, and reflexive on the forms that stand in a cell. A fitted ending
keeps the spelling code.

Layout:

- `src/text.rs` — the string operations the paradigms are built on, with their
  models; the two calls into the standard library whose contracts are trusted
  (`String::push` and `str::to_lowercase`) stand here.
- `src/alphabet.rs`, `src/morphemics/`, `src/rules/` — the letters and the
  spelling rules of the code of 1956 that the paradigms consult.
- `src/grammar/` — the categories, the tags and forms, the conjugation and the
  declension, and the dependencies between words.
- `src/id.rs` — the identifiers of knowledge-base entities.
- `tests/` — the scenarios, run against the compiled library.
- `app/` — serialisable copies of the plain types, for storage.
