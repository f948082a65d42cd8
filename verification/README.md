# cosh

The logic of an agent shell, verified with Verus, and the program around it.

- `src/` is the library. It decides; it does no input or output.
  - `login_shell` manages cosh as a login shell: paths, the shell table, accounts,
    and a run of one request from its first check to its report.
  - `core_service` serves agent turns on one long-lived core process: the course of
    a turn, the response writer, registry commands, and who may start what.
  - `auth` holds the credential form, its navigation, the flow for the role of an
    ECS instance, the check of that role, and the registry commands.
  - `ecs_metadata` judges what the metadata service of an instance answers.
  - `shell_host` plans a managed shell: its files, its environment, the search for
    a Bash that can take a login identity, the prompt, and the way back to a
    native shell.
  - `health` and `diagnostics` collect and report: the doctor, logs, crashes, the
    run registry, and the search for a newer version.
  - `gateway` words errors for its clients, and `i18n` holds the messages.
  - `text`, `tree`, `record`, `values`, `order` and `clock` are what these are built
    on.
- `app/` is the program: it asks the library what to do next, does it, and says how
  it went.
- `tests/` runs the library on concrete values.

Work that alternates between decisions and the outside world is a state machine in
the library (`Manager`, `Course`, `Writer`, `Exchange`, `UpgradeSearch`,
`BashSearch`): it hands out one action at a time and is told the outcome.
