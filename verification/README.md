# chperf

Analyzer for Chrome DevTools performance traces (`{ "traceEvents": [...] }`),
with a terminal viewer and a Markdown report.

- `src/` is the verified library (Verus):
  - `app.rs`: tabs, navigation state and key handling of the viewer;
  - `trace.rs`: trace events and main-thread detection;
  - `export.rs`: layout of the Markdown report;
  - `ui.rs`: text helpers of the viewer (URL shortening, titles, scroll
    indicator, splitting of stacked bars);
  - `analysis.rs`: finding and source-type kinds;
  - `paths.rs`: the name a trace is shown under;
  - `text.rs`: string comparison and decimal notation.
- `app/` is the program around it: command line, JSON parsing, drawing with
  ratatui, float formatting of durations and percentages, file output.
- `tests/` exercises the library on concrete values.

The trace analyses themselves (long tasks, scroll-task detection, CPU source
classification, comparison findings, the page URL) and a summary-only export
are not part of this project: the program starts the viewer and the report
from empty analysis results, builds no comparison, and refuses `--summary`.
