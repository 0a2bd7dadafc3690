# iot_switch

A programmable relay switch for a Raspberry Pi: weekly schedules, a manual
override (on, on for a number of minutes, or locked off), and a small HTTP API.

- `src/` is the verified library (Verus):
  - `text.rs` reads `"HH:MM"` schedule times;
  - `clock.rs` holds wall-clock times and the arithmetic on them, and the calls
    into chrono that read the clock and read and write time stamps;
  - `config.rs` the stored settings; `request.rs` what API requests carry;
  - `controller.rs` the switch itself: one step (`tick_at`) decides the relay
    from the override and the schedules; `relay_remaining`, `status_at`, and
    the operations of the API;
  - `laws.rs` properties of the switch as a whole, proved over the step.
- `app/` is the server around it: the settings file, the GPIO pin, the
  scheduler loop and the HTTP routes.
- `tests/` runs the library on concrete times and compares the clock
  arithmetic with chrono.
