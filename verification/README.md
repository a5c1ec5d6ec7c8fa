# druid (verified widget logic)

The state and event logic of a retained-mode GUI toolkit, written in Verus
and proved against its contracts.

- `src/` — the verified library. Each module states its behaviour over spec
  functions (`route`, `scroll_step`, `stepper_step`, `focus_step`, ...) and
  proves the laws that tie its operations together (`law_*` proof functions).
  Geometry is left to the caller: functions take what was measured (a hit
  test, a comparison of positions) and return what to do.
- `tests/` — executable tests of the library.
- `app/` — the parts that cannot be verified here: process-wide id counters,
  floating-point geometry with `kurbo`, and opacity animation values.

Text segmentation calls `unicode-segmentation`; the two functions that make
those calls are the only ones whose contracts are assumed rather than proved,
and their doc comments say what is assumed of them.
