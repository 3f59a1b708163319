# noalbs

Automatic scene switching for live streams.

Stream servers report how good a stream is. The switcher decides when that
asks for another scene in the broadcasting software and which scene that is,
stops a stream that stays offline, and keeps from repeating a request while the
software is still busy with it.

- `src/` is the library. It is written in Verus: every function is verified
  against its contract, but for one that calls the standard library's
  formatting (`quote` in `debug`).
  - `rules` states when to switch and where to, as functions of the state, of
    what was answered last and of what the clock said.
  - `switcher` computes just that, one step at a time. `state`, `config`,
    `steps`, `scenes`, `triggers` and `status` hold the data.
  - `laws` proves what holds of the switcher as a whole: that every pass ends,
    that none is done while there is something to wait for, that no request is
    sent twice while it is pending, that the count of retries stays in bounds,
    that it goes to the previous scene or to one that the settings name for the
    switch type, and that each of these can be left again.
  - `clock`, `notify`, `scenes` and `debug` hold the few declarations about the
    standard library and tokio that are taken on trust. Each says what it
    claims.
- `tests/` runs the library.
- `app/` is the program around it: tasks, locks, network and chat.
