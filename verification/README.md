# pulsewave

A real-time multi-host latency monitor for the terminal, with its logic
verified by Verus.

- `src/` — the verified library:
  - `host.rs`: per-host statistics (rolling chart window, trend line,
    current/min/max/average latency, loss, jitter) and their model as a
    function of the recorded probe outcomes;
  - `network.rs`: interface throughput and session totals;
  - `app.rs`: the dashboard state, key handling, probe events and the
    figures the dashboard shows;
  - `ping.rs`: the decisions of the per-host probe loop;
  - `theme.rs`: the colour rules;
  - `sparkline.rs`: the trend line renderer;
  - `ratio.rs`: exact ratios for the displayed averages and rates.
- `app/` — the program around it: command line, ICMP probes, DNS,
  interface counters, terminal input and drawing.
- `tests/` — tests of the library.

Latencies are whole microseconds and byte counts whole bytes; averages,
percentages and speeds are exact ratios that the program turns into
decimal figures only to draw them.
