# tuxedo_daemon

Hardware control for TUXEDO laptops: fan curves, keyboard backlight and
power profiles, offered over D-Bus as `com.tuxedo.Daemon`.

- `src/` is the verified library. It decides everything the daemon does:
  device detection from DMI fields, configuration validation, the fan
  curve and its hysteresis, the EC register and sysfs attribute writes of
  each platform (NB04, NB05, Uniwill, Tuxi, Clevo, hwmon), the HID reports
  of the ITE keyboard controllers, and the answers of the D-Bus methods.
  Reads and writes are described as values (`AttrWrite`, `EcWrite`,
  `HidReport`) with exact contracts.
- `app/` is the daemon around it: reading files and device nodes, sending
  the reports and writes the library computes, the D-Bus registration, the
  polling loop and systemd notification.
- `tests/` exercise the library on concrete values.
