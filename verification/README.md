# buzzer

A buzzer on an ESP32 that is sounded over the network. There are two servers:

- one takes web sockets at `/buzz`. A ping on one of them is answered with a pong
  and keeps the buzzer going for half a second, unless it comes within 5 ms of
  the last. `/status` tells how many sockets there are and how much heap is free.
- one takes plain requests: `/buzz/start` and `/buzz/stop` switch the buzzer,
  `/buzz/heartbeat` and `/status` tell that the server is there.

`src/` is the library, verified with Verus: which sockets are let in, what is done
with each message and each request, when the pin is high, when to connect and when
to serve. Each task of the firmware that decides anything is a state machine there.
It says what is to be done next and is told what came of it.

`app/` is the firmware. It does what the library says: it reads the clock and the
free heap, reads and writes sockets, runs the radio and sets the pin. It also sets
the server up: the router, its timeouts and buffers, and the number of tasks. It is
built for the device with a nightly toolchain, with the linker scripts `defmt.x`
and, last, `linkall.x`, and with the `esp-*` crates (`esp-hal` 1.0, `esp-radio`
0.17, `esp-rtos` 0.2, `esp-alloc` 0.9), which build for the device only. `SSID` and
`PASSWORD` name the access point at build time; with `BUZZER_SWITCH` set, the second
server is built in place of the first.

`tests/` runs the library on concrete values.
