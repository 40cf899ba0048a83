# scroll_lock_keeper

Scroll Lock Keeper keeps a Windows session from locking or starting a
screensaver: every few minutes it taps Scroll Lock twice, which resets the
idle timer without changing the Scroll Lock indicator. It also notices new
releases on GitHub and points the user to them.

Layout:

- `src/` is the verified library (Verus):
  - `version.rs`: reading `major.minor.patch` strings and deciding whether a
    release is newer, with the order's laws;
  - `update.rs`: what a release answer means, the polling loop's decision,
    and the release page addresses;
  - `scroll_lock.rs`: the keyboard events of a tap and of a keep-awake round,
    and the proof that a double tap leaves the indicator unchanged;
  - `settings.rs`: the stored settings, their defaults and file location;
  - `ui.rs`: which command each window event triggers, and the interval
    dialog's values.
- `app/` is the Windows program around it: native-windows-gui windows, the
  background threads, `SendInput`, the HTTP request and the JSON files.
- `tests/` runs the library on concrete values.
