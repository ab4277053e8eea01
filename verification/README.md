# power_profile_watcher

A daemon that keeps `power-profiles-daemon` in step with the power source
reported by UPower (AC: `performance`, battery: `power-saver`). Where a
session screensaver reports the lock state, a locked session on AC gets
`power-saver`; the lock state is read when the profile is applied, at start
and on each plug or unplug, and a lock or unlock alone changes nothing.

- `src/` is the verified library: the profile policy (`policy`), the events
  taken from D-Bus signals (`watch`), the search for a lock-state provider
  (`dbus`), the event loop's decisions (`daemon`), the systemd user unit and
  the judgement of `systemctl` answers (`service`), the log level chosen on
  the command line (`cli`), and the string operations they rest on (`text`).
- `app/` is the program around it: command-line parsing, logging, the D-Bus
  connections and signal streams, files and `systemctl` processes.
- `tests/` runs the library on concrete values.
