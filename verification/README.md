# boldtrace

A crypto market-intelligence service: an exchange client that streams
candles, order books, funding rates and open interest from Binance or Bybit
into Redis; a Telegram bot that scores each symbol, raises alarms and smart
alerts and keeps a decision ledger; a product API with accounts, sessions and
market endpoints; and a backtest runner.

## Layout

- `src/` is the verified library, written in Verus. Public functions state
  what they return in `requires` / `ensures` over spec functions; readings
  of the clock and of the random source state what holds of every reading
  (or nothing, where every value is possible), and the conversions applied
  to a reading are verified functions of their own. The laws that span
  several functions are public proof functions.
  - `text`, `lexical`: string helpers, lexicographic order, sorting and
    de-duplication of symbol lists.
  - `config`, `discovery`, `streams`, `messages`, `order_book`, `backoff`:
    the exchange client (symbol parsing, instrument discovery, stream URLs
    and subscription plans, wire messages, the local order book, reconnect
    back-off).
  - `market`, `market_state`, `backtest`: decisions, regimes, source health,
    rolling windows and the integer parts of the backtest.
  - `i18n`, `locales`, `bot`, `alarms`, `subscriber`: translations, the bot's
    users, consent, commands, alert gating and the subscriber loop's
    decisions.
  - `auth`, `email`, `product`, `rate_limit`, `crypto`, `clock`: the product
    API's account rules, emails, request parameters, rate limiting, token
    hashing and time.
- `app/` is the program around the library: `main`, Redis, HTTP, Telegram,
  PostgreSQL, JSON and CSV, and the floating-point score engine.
- `tests/` runs the library on concrete values.

Calls into outside crates (SHA-256, Argon2, random bytes, Fluent, `time`)
stand behind small trusted wrappers in `src/`, each with a doc comment that
says what its contract assumes of the crate.
