# sports_trailing

The decision logic of a trailing-stop bot that trades one two- or
three-outcome prediction market, verified with Verus.

- `src/trailing.rs`: the state machine. Each round of asks updates the
  trailed low and high of the tokens and yields a decision: wait, buy a
  first leg (the cheapest underdog under half a dollar whose ask rose by the
  trailing stop above its low), or buy the second leg (the other token, or
  one of the two others, in as many shares as the first leg). The outcome of
  each buy is fed back.
- `src/laws.rs`: properties of the state machine over several calls.
- `src/sizing.rs`: the shares of a first leg (the amount invested, shares times
  price, is a float product that `app/` computes for the order API).
- `src/price.rs`: prices as fixed-point integers (millionths of a dollar).
- `src/end_date.rs`: the market's end time from its ISO 8601 text.
- `src/market.rs`, `src/clock.rs`, `src/display.rs`: market facts, time
  keeping, and what is shown to the operator.
- `app/main.rs`: the program around the library: configuration, the market
  API, orders, logging and the clock.
