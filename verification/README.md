# forge_dx

Verified core of forge's DX status inspection and commit bookkeeping.

- `src/` is checked by Verus:
  - `dx_status`: classifying `.machine` files (typed cache or serializer
    document), judging them against their `.machine.meta.json` metadata and
    the sources it records, and building each file's status.
  - `report`: grouping statuses into a report and rendering its text lines.
  - `dx_config`: where forge keeps its DX artifacts in a workspace.
  - `commit`: the files a new commit lists (a sorted map keyed by path), its
    author, identity and status entries.
  - `paths`, `digest`, `text`: `std::path`, BLAKE3 and hex behind trusted
    wrappers, and verified decimal rendering.
  - `laws`: properties that span several functions.
- `app/` performs the filesystem, clock and terminal work and follows the
  library's routing (`machine_route`) and judgements; it also holds the
  serde copies of the report types. It has no commit command: the
  repository, metadata-database and manifest code that such a command needs
  is not part of this project, so only the commit decisions in
  `src/commit.rs` stand here.
- `tests/` exercises the library on concrete values.
