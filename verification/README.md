# sleeptool_rs

SleepTool puts a Windows machine to sleep once nothing keeps it busy: no
input for a while, no CPU, network or disk activity above the configured
thresholds, no sound playing and none of the watched processes running.

- `src/` is the verified library: the settings, the monitors and the engine
  that decides, the sleep sequence, the monitoring loop's bookkeeping, the
  log line format, command-line parsing, the tray's texts, icons and menu
  switches, and the list editing of the settings window. Each public
  function states its behaviour in `requires` / `ensures`, and the `law_*`
  proof functions state the properties that span several calls.
- `tests/` runs the library on concrete values.
- `app/` is the Windows program around it: the tray window, the settings
  window, the performance counters, audio, the registry, the log file and
  the loop that evaluates the engine once a second. It compiles on Windows
  only.
