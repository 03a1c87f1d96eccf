# fd_filesystem

Path helpers of a file finder, verified with Verus.

- `src/paths.rs`: `./` stripping, absolute forms, the existing-directory decision, the default
  separator and separator rewriting, with their contracts and laws.
- `src/components.rs`: path components and how a path is written from them with a chosen
  separator.
- `src/entry.rs`: the decision whether a directory entry is empty.
- `src/text.rs`: removal of leading copies of a pattern.
- `src/host.rs`: the calls into `std::path`, with the contracts the rest relies on.
- `app/`: the same helpers on `Path`, `OsStr` and `fs` types; it reads the working directory,
  the environment and the file system, and asks `normpath` whether a path normalizes.
