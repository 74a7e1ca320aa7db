# kaishin

Self-update for command-line programs written in Rust, with the decisions verified by Verus.

- `src/` is the library. It compares versions, throttles checks, detects how the executable was
  installed, words what people read, and leads through an update one step at a time: the
  interactive one (`session`) and the silent one in the background (`auto`). Each function states
  what it returns; what holds across functions, and across processes that share a state file
  (`shared_laws`), is proved in the functions named `law_*`.
- `tests/` runs the library on concrete values.
- `app/` surrounds it with requests to GitHub, the state file, the lock against other processes,
  the terminal, `cargo install` and the replacement of the executable.

## Checking in the background

```rust
let opts = KaishinOptions::new("yukimemi", "rvpm", "rvpm", env!("CARGO_PKG_VERSION"));
let checker = Checker::new("rvpm", opts);
if checker.should_check() {
    let checker = checker.clone();
    tokio::spawn(async move {
        let _ = checker.check_and_save().await;
    });
}
if let Some(latest) = checker.cached_update() {
    eprintln!("\n{}", checker.format_banner(&latest));
}
```

## The self-update command

```rust
let opts = KaishinOptions::new("yukimemi", "my-tool", "my-tool", env!("CARGO_PKG_VERSION"))
    .crate_name("my-tool-cli");
let upd_opts = UpdateOptions::new().yes(args.yes).check_only(args.check);
run_self_update(&opts, upd_opts).await?;
```

`crate_name` names the package for `cargo install` where it differs from the binary. Without `yes`
the update asks first, and without a terminal to ask on it does not go ahead.

## Updating silently

`Checker::spawn_auto_update` checks, downloads and replaces the executable without a word. It is
throttled by the same interval, whether or not GitHub could be reached, leaves development builds
(below `target/`) alone, never runs `cargo install`, and lets one process at a time do the work: the
state is read again under the lock, so processes that start together ask GitHub once.
