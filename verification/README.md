# cgx

Run Rust crates without installing them first: `cgx ripgrep` finds the crate, gets a prebuilt
binary or builds one, and runs it.

This crate holds the decisions behind that, written in [Verus](https://github.com/verus-lang/verus):
each function states in its contract what it returns, and the contracts are proved. The library
opens no file, makes no request and starts no process. Work of that kind comes back from it as an
action; what came of it goes in as an event or an argument.

## Layout

- `src/` — the verified library.
  - `cli`, `config`, `layers`, `load`: what is asked for.
  - `cratespec`, `resolver`, `version`, `registry`: which exact crate that is.
  - `downloader`, `cache`, `git`, `git_client`, `ca_bootstrap`, `http`: where its sources come from
    and where they are kept.
  - `bin_resolver`, `providers`: whether there is a prebuilt binary, and where.
  - `builder`: which target of which package is built.
  - `run`, `messages`, `logging`, `error`: a run as a whole.
  - `text`, `paths`, `urls`, `digest`: what the rest is made of.
- `app/` — the program around the library: command line, files, network, git, cargo.
- `tests/` — tests of the library on concrete values.

## What is believed without proof

A few functions of other crates are called from the library. Each call stands in a small function
marked `#[verifier::external_body]`, whose doc comment says what is claimed of the other crate:

| Crate        | Called for                                           | Module                  |
|--------------|------------------------------------------------------|-------------------------|
| `semver`     | reading, ordering and matching versions              | `version`               |
| `url`        | taking URLs apart, showing them                      | `urls`                  |
| `tame-index` | crate names, download addresses                      | `registry`              |
| `sha2`       | SHA-256                                              | `digest`                |
| `base64`     | PEM bodies                                           | `digest`                |
| `gix`        | object hashes, the `http.sslCAInfo` setting          | `git`                   |
| `reqwest`    | proxy URLs                                           | `http`                  |
| `std`        | lossy UTF-8, the debug form of text                  | `digest`, `bin_resolver`|
