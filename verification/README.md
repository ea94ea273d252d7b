# Night Light for COSMIC

A night light for the COSMIC desktop, with its rules written and verified in
[Verus](https://github.com/verus-lang/verus).

`src/` is the library: schedules and overrides, the config store, sun times from
the time zone tables, the search for a privileged helper, the shared records that
keep several processes from applying twice or prompting twice, and the state
machines of the applet, the settings window and the daemon. Every function states
what it returns or changes, and the properties that span several of them stand as
proof functions marked **Law**.

The library performs no input or output. Questions about the host come out as
values and their answers go back in; writes to the config store and to the runtime
directory are queued on the value that models them. Three small functions call
`chrono` for the local clock and the tz database, and their contracts are trusted:
`local_now` in `clock.rs`, and `midnight_timestamp` and `local_hour_and_minute` in
`solar.rs`.

`app/` is the program around it: file and process I/O, the libcosmic widgets, and
the floating-point solar position formula. `tests/` runs the library on concrete
values.
