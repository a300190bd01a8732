# smart_home_firmware

Firmware core for ESP32-C3 smart switches and plugs (one, two or three gangs,
or a plug with a power meter), verified with Verus.

- `src/` is the verified library: the data-point model and manager
  (`dp`), a JSON model and the codec of the HTTP API (`json`, `dp::codec`),
  the relay, LED and button drivers over abstract pins (`drivers`), the
  product configurations (`config`), the WiFi, HTTP and mDNS decision logic
  (`network`), SoftAP provisioning (`provisioning`), the flash layout
  (`storage`), the main-loop decisions (`firmware`), and small text helpers
  (`text`).
- `app/` is the program around it on ESP-IDF: GPIO, NVS, WiFi, the HTTP
  servers, mDNS, and the main loop. It turns JSON text into the library's
  JSON model and back with `serde_json`.
- `tests/` exercises the library on concrete values.
