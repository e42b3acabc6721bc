# gnss_time

Type-safe GNSS time scales — GPS, GLONASS, Galileo, BeiDou, TAI and UTC —
with explicit, checked conversions and nanosecond arithmetic, verified with
Verus.

- `Time<S>` counts nanoseconds since the epoch of scale `S` in a `u64`;
  scales cannot be mixed.
- `Duration` is a signed `i64` count of nanoseconds.
- Conversions across UTC take an explicit `LeapSecondsProvider`
  (`LeapSeconds::builtin()` holds every leap second through 2017-01-01).
- `CivilDateTime` renders a UTC instant as ISO 8601.

## Layout

| Path              | Contents                                              |
|-------------------|-------------------------------------------------------|
| `src/scale.rs`    | scale markers and the `TimeScale` trait               |
| `src/duration.rs` | `Duration`, its arithmetic, text form and parser      |
| `src/time.rs`     | `Time<S>`, fixed-offset conversions, week/day fields  |
| `src/leap.rs`     | leap-second tables, lookup, GPS/UTC/GLONASS chains    |
| `src/convert.rs`  | `IntoScale`, `IntoScaleWith`, `ConvertResult`         |
| `src/civil.rs`    | proleptic Gregorian calendar, `CivilDateTime`         |
| `src/epoch.rs`    | scale epochs and calendar offsets                     |
| `src/matrix.rs`   | the conversion matrix                                 |
| `tests/`          | unit, law and property tests                          |
| `app/`            | serde support, `Display`, floating-point views        |

Every function in `src/` carries a contract; the proof functions
(`lemma_*`) state the library's laws, among them the GPS → UTC → GPS round
trip (exact except inside a leap-second window), UTC → GPS → UTC exactness,
the calendar round trip and the `Duration` text round trip.
