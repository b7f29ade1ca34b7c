# hw-eval

A benchmark harness for the Intel Data Streaming Accelerator (DSA) and the
In-Memory Analytics Accelerator (IAX): latency and throughput of single
operations, batches, bursts and sliding windows, and a set of experiments on
where submission stops scaling (admission, occupancy, completion visibility,
traffic class, completion reuse).

## Layout

- `src/` — the library, verified with Verus. It holds everything the harness
  decides or computes:
  - `config` parses and checks the command-line configuration;
  - `layout`, `dsa`, `iax` build the 64-byte descriptors and read the
    completion records byte by byte, with CRC-16/T10-DIF for the IAX CRC64
    field;
  - `stats` summarises samples (minimum, median, mean, percentiles) and
    converts TSC ticks to nanoseconds;
  - `submit`, `window`, `submit_only` hold the polling, status and
    sliding-window rules of the throughput loops;
  - `common`, `admission`, `occupancy`, `overlap`, `mechanism`, `ladder`,
    `reuse` hold the per-experiment accounting: what a completion status
    counts as, which request is polled next, how samples fold into results;
  - `plan`, `report`, `error`, `pmc`, `trace`, `text`, `sw` hold the run
    plan, result rows, errors, counter arithmetic, trace points, text
    parsing and the software copy baseline.
- `app/` — the program around it: argument parsing, the memory-mapped work
  queue portal and the submit instructions, the timers, the benchmark loops
  that talk to the device, and the JSON report.
- `tests/` — tests of the library on concrete values.
