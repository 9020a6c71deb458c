# rs-tools

Explainable kline analysis for grid-trading assistance.

- `src/` is the library, written in Verus and proved: ordering rows by open
  time (`ordering`), reading open-time values (`timestamp`), counting
  crossings and classifying the market from indicator evidence (`market`),
  the grid plan rules of each market state (`grid`) and the chart signals
  (`signals`).
- `app/` is the `kline-analyze` command: it reads OHLCV CSV, computes the
  floating-point indicators (BOLL, MACD, ATR, ADX), turns them into the
  evidence the library classifies, and prints the JSON report.
- `tests/` runs the library on concrete inputs.
