# now

`now` deploys a static site through a provider's own tooling (Firebase
Hosting, Azure Static Web Apps, FTP through `lftp`) or, for Azure Storage
Blob, by uploading the files itself over a SAS URL.

## Layout

- `src/` is the library, written in Verus and verified. It holds every
  decision the tool makes:
  - `config`, `json`: the JSON configuration (reading settings, merging the
    global and project files, `config set`/`get`, refusing secret-like keys);
  - `env_file`: `.env` files (parsing, quoting, rewriting one variable);
  - `fs_rules`, `paths`: which files are published and how paths join;
  - `deploy`: which directory is published, the default URL, the summary;
  - `provider`: the provider command, its arguments and environment;
  - `azure_blob`: blob URLs, content types and the masked upload line;
  - `onboarding`: the first-run and `init` dialogue, as a state machine;
  - `deploy_flow`: a whole deployment, as a state machine;
  - `cli`: what each command line asks for, and `config doctor`.
- `app/` is the program around it: argument parsing, files, the terminal,
  the network, and running the provider tools. It performs what the
  library's state machines ask for and hands back what came of it.
- `tests/` runs the library on concrete cases.
