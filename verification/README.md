# crypto_bot

An RSI mean-reversion paper-trading bot for crypto pairs, with its decision
logic verified in Verus.

- `src/` is the verified library:
  - `strategy` — the signal rule table (exit at neutral first, enter long below
    the oversold level and short above the overbought level, only when flat)
    and the number of RSI values a price series yields;
  - `engine` — the per-tick decision (skip without RSI, stop-loss before any
    signal, then the signal), the live loop's reaction to a fetch, and the
    proof that only one position is open at a time over any run of ticks;
  - `webhook` — the plan for an alert: close any open position, then open the
    requested side or reject an unknown signal;
  - `interval` — seconds in a candle interval such as `5m`, `1h`, `1d`;
  - `config` — the non-numeric settings and their defaults;
  - `execution` — the position side.
- `app/` is the program around it: the command line, configuration loading,
  market data (Binance REST, CSV files), the RSI and risk arithmetic on
  floating-point prices, the paper account, the HTTP webhook server and
  logging.
- `tests/` exercises the library.
