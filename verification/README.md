# budget

The rules of a budgeting and investment-portfolio service, verified with Verus.

- `src/` is the verified library: budget roles and membership, request
  validation, the stored and wire codes of every enum, listing filters and
  paging, FX conversion, and the portfolio logic (decimal money, quantities
  and rates, simple and compound interest, FIFO disposal of lots, asset
  lifecycle, valuation, price providers, rollovers, transfers, maturity,
  the outbox drainer's decisions and alert contents).
  `rust_decimal` and `serde_json` are called through a few trusted wrappers
  whose contracts are stated in `src/decimal.rs`,
  `src/manager/biz/portfolio/outbox.rs` and
  `src/manager/biz/portfolio/providers/noop.rs`.
- `tests/` runs the library on concrete values.
- `app/` is the program around it: configuration from the environment, the
  clock, identifiers, the floating-point figures of the wire messages, and
  the flows that alternate storage and delivery with the library's
  decisions (delivering an outbox event, the maturity scan, recording a
  stock sale) over storage and delivery traits.
