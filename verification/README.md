# irodori

iRodoRi is a Windows tray application that tunes the display: brightness,
contrast and gamma through the GDI gamma ramp, hue through the magnification
API, and NVIDIA digital vibrance through NVAPI, with an option to start at
logon.

- `src/` is the verified library (Verus): the gamma ramps and their shaping,
  the vibrance session as a state machine with its laws, the messages shown to
  the user (with verified decimal rendering), the tray menu, and the `reg`
  command lines for autostart.
- `tests/` runs the library on concrete values.
- `app/` is the Tauri application around it: the commands, the Windows calls,
  the floating-point colour maths and the tray.
