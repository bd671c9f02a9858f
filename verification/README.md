# exile_poe2

Path of Exile 2 rules for items, modifiers and effects, written in Verus with
their contracts proved.

- `src/` is the verified library: the database model (`repoe_parse`), the
  condition and scaling suffix tables, the modifier definition registry
  (`item::definition`), modifier and whole-item validation, affix limits,
  effect resolution, condition evaluation, planning metadata, the stat
  accumulator, the factory, the bucket finalizer and its tables, the local
  stat table of the final item stats, and the rules of the missing-stats
  report.
- `tests/` runs the library on concrete values.
- `app/` is the unverified rest: reading the JSON database with serde, the
  floating-point final stats, the missing-stats report's file handling, and
  the audio device and speech recognizer set-up.

The bucket mapping and an item's tag hashes are `ahash` collections, used
through small trusted wrappers whose contracts speak of what each collection
holds. Strings are hashed with `ahash`, whose keys are drawn at random in each
process; contracts that go through a hash hold for whatever values the hashes
took, and functions that take the hashes as arguments state their results
exactly.
