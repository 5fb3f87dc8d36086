# vesta

Telemetry logic of the Vesta wildfire-sensor node: a BME688 gas sensor on an
STM32WLE5 with a LoRa radio. The library under `src/` is written in Verus. Every
function states what it returns or changes, and the proofs hold for every sensor
reading, bus failure and transport outcome. `app/` is the firmware around it:
board bring-up, register and radio drivers, timers and RTT logs.

## Library

- `driver`: plain values of the BME68x driver and the driver computations that
  the library calls.
- `profile_definition`, `profile_policy`, `radio_config`: the HP-354 heater
  profile, the cadence of scans and records, and the radio parameters.
- `bme688_profile`: one bounded profile scan as a state machine from sensor
  replies to commands, with configuration check, recovery and stop-only retries.
- `scan_laws`: what holds of every scan, whatever the sensor and the bus do.
- `profile_status`: delivery of configurations, the reconfiguration marker and
  the quality boundary of a profile.
- `health`, `degraded_health`: saturating accounts during operation and during a
  failed startup.
- `telemetry_v2`, `protocol`: what the protocol-v2 records of a scan say.
- `runtime`: startup with its retries, then one scan after another.
- `output_v2`, `framing`, `radio`, `rf_switch`: record batches, COBS/CRC-32 frames,
  the UART and radio sessions and the RF switch.
- `bme688`, `payload`, `output`: forced-mode measurements and 48-byte frames of
  protocol v1.
- `board`, `identity`, `provenance`, `text`, `bytes`: reset cause, sensor probe,
  node and build identity.

## Application

The application asks the library for the next command, carries it out and hands
back the result: for a scan, for the radio session, for the UART session, for
startup and for the records of a scan. What follows a result is decided in the
library.

On the build host the program prints what cargo has to know before it compiles the
firmware: linker arguments, the scan interval and the build's provenance.

A node build selects exactly one of the features `telemetry-v1` (protocol v1) and
`profile-v2` (profile records over LoRa). With `profile-v2`, the feature
`profile-v2-uart` sends the records over the laboratory UART instead. The
protocol-v2 codec is the crate `vesta_protocol_v2`, named in `app/codec.rs` alone.
