# glm_plan_usage

A status-line plugin that shows the usage of coding plans (GLM from ZHIPU or
ZAI, MiniMax, Kimi): quota percentages, reset times, call counts, token
totals. The logic is a Verus-verified library; a thin program around it does
the I/O.

- `src/` — the verified library.
  - `text.rs`: decimal rendering, searching, replacing, joining text.
  - `timefmt.rs`: timestamps rendered through `chrono`.
  - `api/`: the three platform clients (base URLs and credentials, the
    requests they make, how replies become statistics), percent-encoding and
    URL origins (`url.rs`), and the retry policy (`retry.rs`).
  - `config/`: configuration types and defaults, credential precedence.
  - `statusbar/`: segment texts, the statistics cache, and the status line.
  - `terminal.rs`: emoji or ASCII, and reading the Windows build number.
  - `cli.rs`: what the command-line options change.
- `app/` — the program: stdin, files, environment, HTTP (`ureq`),
  JSON/TOML (`serde`), the floating-point speed and percentage figures.
- `tests/` — tests of the library on concrete values.
