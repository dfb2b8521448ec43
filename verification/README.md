# ESP-NOW to MQTT gateway

A gateway that talks to remote devices over ESP-NOW and publishes their data to an MQTT server.
It also listens on the MQTT server for updates to the devices that connect to it.

- `src/` is the verified library.
  - `mac`, `topic`, `packet`: hardware addresses, MQTT topics, packets and the byte reader.
  - `device`, `light`, `json`: the devices of a node, their wire format and their JSON form.
  - `gateway`: the devices that the gateway bridges, what it does with packets (`radio`), how it
    stays on the network (`link`), what it remembers (`registry`), the JSON form of its devices
    (`payload`) and how it serves the broker (`bridge`).
- `tests/` runs the library on concrete values.
- `app/` is the firmware for the ESP32 around the library: hardware set-up, the radio, the network
  and the MQTT client.

The functions named `law_...` state what holds of several operations together.
