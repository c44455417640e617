# phonebridge

The PC side of PhoneBridge: pairing a phone over mutual TLS with
trust-on-first-use certificate fingerprints, call and media control messages,
LAN and BLE discovery, audio datagrams with a jitter buffer, and a KDE Connect
pairing path.

- `src/` is the library, verified with Verus: its functions carry contracts
  that say what they return, and the properties that span several functions
  (what the trust store gives back after `trust` and `revoke`, what a reloaded
  store trusts, framing and datagram round trips, route ordering, what a
  control session lets through before the peer is trusted) are stated and
  proved.
- `app/` is the daemon around it: sockets, TLS, files, the terminal, the audio
  devices and the Bluetooth stacks. It hands plain values to the library and
  carries out what the library decides.
- `tests/` runs the library on concrete values.
