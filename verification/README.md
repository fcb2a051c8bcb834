# gale_led

Control of the RGB status LED of a Google Wifi (Gale) router running OpenWrt.

- `src/` is the verified library: color parsing and formatting, brightness
  scaling, configuration validation from the stored UCI text values, interface
  and ICMP target validation, the ICMP failover state machine, the heartbeat
  and rainbow effects, the decisions of the LED loop, the channel brightness
  values and the JSON reports. Each public function states its result in its
  contract; the `lemma_*` proof functions state the properties that hold
  across calls (round trips, thresholds, orderings).
- `app/main.rs` is the `gale-led` command: it reads UCI with `/sbin/uci`,
  reads and writes the sysfs LED files, runs `ping`, keeps the clock and the
  loop, and computes the breathing level (a cosine).
- `tests/` exercises the library on concrete values.
