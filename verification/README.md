# knr_bootstrap

The one-time, imperative bootstrap of a knr-ops management cluster, with its decisions verified by
Verus. After it has run, Flux drives everything else.

```sh
knr-bootstrap [PROFILE] [--recreate]
```

`PROFILE` is `aws` (the default) or `local-host`; a non-empty `KNR_OPS_PROFILE` takes precedence.
An existing `mgmt` cluster is reused unless `--recreate` is given, and every step can be repeated,
so a bootstrap that failed half way is resumed by running it again. All other knobs are variables
of the environment; unset and empty ones have their defaults.

## Layout

- `src/` is the library. `bootstrap::bootstrap` is a function from the settings, the stage that was
  reached and the answer to the last action to what follows: lines for the terminal and the next
  action, success, or a failure. Each phase has a module with a specification of what follows at
  each point (`*_turn`) and a function that is proved to follow it.
  - `protocol`, `process`, `failure`, `text` and `decimal` are what the phases are built of.
  - `cli` makes the settings out of the command line and the environment.
  - `preflight`, `aws`, `cluster`, `registry`, `flux`, `watch` and `bootstrap` are the phases.
  - `answers`, `cleanup`, `order`, `rerun`, `secrecy`, `success` and `termination` prove what holds
    of the bootstrap as a whole.
  - `outside` holds the three calls whose results are taken on trust.
- `app/` is the program around it: it reads the command line and the environment, performs the
  actions (programs, requests, files, the clock) and shows the notes.
- `tests/` runs the library on concrete values.
