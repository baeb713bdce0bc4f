# cpr

A Canadian payroll library: employees, pays and their deductions (CPP,
CPP2, EI, federal and provincial income tax by the T4127 formulas),
vacation accrual, T4 slips and summaries, the record of employment, and
the payroll and remittance registers.  The library is written in Verus:
every function in `src/` carries a contract that the verifier proves.

Layout:

- `src/decimal.rs`, `src/text.rs`, `src/date.rs`: decimal arithmetic (over
  `rust_decimal`), text and calendar helpers, with their contracts.
- `src/models/`: employees, pays, history, vacation, the settings registry.
- `src/tax/`: the year's rates and limits, and the T4127 calculation with
  its laws (`law_*` proof functions).
- `src/db/`: what the repositories decide and compute: amounts in cents,
  stored columns, slip versions, balance changes, history queries.
- `src/reports/`: the figures of the paystub, the registers, the T4 slips,
  summary, XML and CSV, and the record of employment.
- `app/`: the SQLite repositories, the PDF, XML and CSV files, the tax
  configuration file and the update checks, calling the library.
- `tests/`: tests of the library on concrete values.
