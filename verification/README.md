# ursa_minor_ffb

Rumble (force-feedback) engine of a flight-simulator add-on.

- `src/` is the verified library: the discrete decisions of each rumble frame
  (`frame`, `gear`, `smoothing`), the frame's output types (`effects`), and the
  order in which the settings file is looked for and written (`settings`).
- `app/` holds what works on floating-point flight variables (the signal
  shaping of `RumbleEngine::step`, the gear-transit simulation) and the file and
  environment access of loading and saving the settings; it calls the library
  for every decision listed above.
- `tests/` exercises the library on concrete values.
