# voidemu

The verified core of the Void emulator desktop suite: an emulator front end
that runs Android-x86 in QEMU, its Windows installer, and a launcher that sets
itself up on first run.

- `src/` — the library, verified with Verus:
  - `encoding` — base64 of screen captures;
  - `decimal`, `text`, `version` — number text, trimming and joining, and
    the fallback to the previous release when the newest is not published;
  - `layout`, `emulator`, `setup` — where files live and the QEMU, ADB and
    PowerShell command lines;
  - `registry` — which QEMU process serves which instance;
  - `download` — resuming downloads and when to log progress;
  - `search` — finding a file by name under a folder, depth first;
  - `installer`, `install_flow`, `setup_flow` — the installation and the
    first-run setup as state machines that name the next action.
- `app/` — the Tauri commands and worker threads that perform those actions.
- `tests/` — tests of the library.
