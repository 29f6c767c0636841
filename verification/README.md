# openlogi

Device configuration logic for Logitech peripherals: mice and keyboards that
speak HID++, and UVC webcams.

`src/` is the library. Every public function in it carries a contract, and all of it
is verified with Verus; calls into other crates stand behind a few small items whose doc
comments say what is believed of them.

- `device`, `device_order`, `devices`, `device_list_laws`, `codename`: what a
  device is, the keys that tell devices apart, and the device list.
- `binding`, `config`, `state`: button bindings and where they are kept.
- `hook`, `hook_runtime`: what the mouse hook does with an event.
- `write`, `smartshift`, `lighting`: HID++ reads and writes.
- `pairing`: the pairing session.
- `camera`, `controls`, `uvc`, `uvc_windows`, `capture`, `capture_windows`,
  `camera_preview`: webcams, their controls and their frames.
- `app`, `device_carousel`, `device_list_view`, `device_view`, `labels`, `glow`,
  `tray`, `brand`, `os`, `cmd`: what the windows, the menu bar and the command
  line show and do.
- `release`, `latest_json`, `manifest`, `icon`, `packaging`: release tooling.
- `text`, `address`, `order`, `table`: characters, addresses of files, sort keys
  and tables.

`app/` is the program around the library: files, devices, cameras, windows.
