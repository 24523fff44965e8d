# ring

`ring` is a Linux IPv4 ICMP diagnostic utility: reachability and latency
probes, route tracing by TTL, interface listing and address sweeps.

This crate holds its logic as a library verified with Verus, and the program
around it.

## Layout

- `src/` — the verified library.
  - `packet.rs`: ICMP Echo Request construction and the Internet checksum,
    with the proof that every built request carries a valid checksum.
  - `subnet.rs`: bit counting, prefix masks and the contiguous-mask test.
  - `text.rs`: dotted-quad and number parsing and formatting.
  - `interface.rs`: sweep ranges from interfaces, address pairs, masks and
    CIDR text; the RFC 1918 test.
  - `errors.rs`: classification of ICMP errors and socket errors, reply
    matching.
  - `stats.rs`: ping statistics, TTL summaries and hop estimates.
  - `json.rs`: the JSON report of a ping session.
  - `output.rs`: the content and styling of result lines.
  - `sweep.rs`: sweep safety rules, sweep scope selection and the sweep
    engine's state.
  - `session.rs`: option checks, mode selection, and the ping and route
    loops' state.
- `tests/` — tests of the library.
- `app/` — the command-line program: option parsing (clap), sockets and
  interface enumeration (libc), name resolution, terminal styling (console),
  Ctrl+C handling (ctrlc) and JSON serialisation (serde), plus the
  floating-point statistics.
