# redskull

A conda recipe generator for Rust crates ("grayskull for Rust"), with its
logic verified by Verus.

## Layout

- `src/` — the verified library.
  - `recipe`, `recipe_builder`, `build_script`, `renderer`: the recipe model,
    the builder that assembles it, the `build.sh` generator and the
    `meta.yaml` renderer, each with an exact contract over a plain-value view.
  - `sys_deps`, `runtime_deps`, `license_family`: detection of system
    libraries, compilers and build tools from dependency names, of R/Python
    runtime hints from file paths, and of the conda license family.
  - `source`, `github_graphql`, `conda`, `json`: GitHub URL parsing, tag and
    version handling, archive checksums, the URLs and queries that are sent,
    and the reading of the JSON that comes back.
  - `crate_inspector`: Cargo.toml / Cargo.lock reading, workspace member
    resolution and license file detection.
  - `pipeline`: recipe options, dependency resolution and the rendered
    document.
  - `workflow`: the choices of a run in the order it meets them (source,
    tag, version, manifest, workspace member, metadata), each taken from what
    the previous request returned.
  - `text`: the string operations the rest is written with, with their
    specifications.
- `tests/` — the test suite.
- `app/` — the command-line program: argument parsing, HTTP requests,
  archive reading and output, calling the library for everything else.
