# crypto_aggregator

A crypto price aggregator: an HTTP API over stored coins and price
snapshots, a background job that fetches prices from CoinGecko every
minute, and a service that downloads kline history from Bybit.

- `src/` is the verified library (Verus). It holds the logic: the
  CoinGecko symbol table and price request (`coingecko`), decimal integer
  text (`numeric`), the range of a date-time and instants in nanoseconds
  (`time`), string splitting and joining (`text`), the JSON value
  that responses are read as (`json`), Bybit kline rows and configuration
  (`bybit`), the paged download and the backfill as state machines
  (`history`), the stored kline records (`records`), the bearer-token
  check (`auth`), the price query (`pricing`), and the creation of the
  default coins and the aggregator's cycle as state machines
  (`aggregator`).
- `app/` is the service around it: `main`, the axum routes and middleware,
  diesel models and queries, HTTP requests, migrations and logging. It
  performs the actions that the library's state machines decide on.
- `tests/` runs the library on concrete values.
