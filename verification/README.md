# finance_query

A Yahoo Finance client whose logic is verified with Verus.

- `src/` is the verified library: the requests it makes and how each answer
  is read (quotes, charts, financial statements, holders, analysts, news,
  calendars, options, SEC filings, industries, market status), the
  authentication crumb's lifecycle, the logo cache with its circuit
  breaker, and what each poll of a quote stream yields.  Every public
  function states in its contract what it returns; the calls it makes into
  `reqwest`, `chrono`, `flate2` and `regex` stand behind small trusted
  wrappers whose contracts name or state their results.
- `app/` is the unverified part around it: HTTP with cookies and proxies,
  the async runtime, JSON decoding with `serde`, console output, and the
  few computations on floating-point figures.
- `tests/` runs the library on concrete inputs.
