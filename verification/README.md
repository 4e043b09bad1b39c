# quiche_mp

Verified pieces of a multipath QUIC stack with data/ACK separation.

- `src/path.rs`: paths, when a path is usable, and the path map.
- `src/recovery.rs`: the CUBIC, BBR and BBRv2 phases a path's controller is in.
- `src/mp_scheduler.rs`: data goes on the usable path with the highest
  delivery rate, ACKs on the usable path with the lowest RTT; the laws
  relating the two schedulers are proof functions there.
- `src/ack_frequency.rs`: frequent ACKs (threshold 1) while the controller
  probes or recovers, relaxed ACKs (threshold 10) in a steady phase, with
  a new request raised only when the threshold changes.
- `src/connectivity.rs`: qlog connectivity events.
- `app/`: the serde forms of the qlog events, and the BBR state-update
  events, whose gains are floating-point numbers.
