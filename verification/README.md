# engine

A retirement projection engine: it walks a household's accounts, income
streams and Social Security benefits through time, taxes each year, draws
down savings to cover spending, and runs the same plan under many market
paths to estimate how often the money lasts.

## Layout

- `src/` — the verified library, written in Verus. It holds the calendar
  (`year_month`, `sim`), the people and the plan's timeline (`person`,
  `plan`, `survivor`), the statutory tables and rules (`social_security`,
  `presets`, `limits`, `early_access`, `account`, `tax`), the drawdown
  phases (`phased`), the household/scenario split (`household`), the
  Monte Carlo bookkeeping (`monte_carlo`, `seeds`), and the checks a plan
  and the yearly tax figures must pass (`validation*`, `tax_figures`). Each
  public function carries a contract over spec-level models, and the laws
  that relate several functions are stated and proved as public proof
  functions (`lemma_*`).
- `tests/` — tests of the library on concrete values.
- `app/` — the unverified shell: the serde-facing plan model, the
  floating-point simulation (amounts, growth, tax brackets, withdrawals),
  the random return model, and the parallel Monte Carlo driver. Every
  decision it takes on dates, people, phases, limits or validity is a call
  into the library.
