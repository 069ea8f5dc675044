# delivery_cli

The decisions and messages of the Chef Delivery command-line client, as a
Verus-verified library, with the `delivery` program around it in `app/`.

- `src/command.rs`: which command a parsed command line selects.
- `src/paths.rs`: Unix path joining, the job root, the `setup` directory.
- `src/job.rs`: patchset, branch, clone source, change record and run plan of a job.
- `src/init.rs`: the steps of `delivery init`, as a step function with its laws.
- `src/review.rs`: review, checkout and diff checks and messages.
- `src/api.rs`, `src/cloning.rs`, `src/pipeline.rs`: the `api`, `token`, `clone` and `pipeline` commands.
- `src/version.rs`, `src/clock.rs`: the version line and the build timestamp (through the `time` crate).
- `src/message.rs`: colored output as plain values; `src/error.rs`: the library's errors.
- `app/main.rs`: argument parsing (docopt), configuration, git, HTTP and printing,
  through the `delivery` crate of the client's own workspace.
