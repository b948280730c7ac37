# ofm_core: staff contracts, verified

The contract side of a football-management game's staff: renewal talks
between the manager and a member of staff, the terms of a hire, severance on
release, and the renewals that the assistant manager handles on the
manager's behalf, with the report it leaves in the inbox.

Every function under `src/` is verified with Verus against its contract;
`src/laws.rs` states properties that hold across the operations.

- `src/dates.rs`: calendar dates through `chrono` (trusted wrappers around
  `NaiveDate`), read as plain values.
- `src/text.rs`, `src/params.rs`: decimal text and named note parameters.
- `src/staff.rs`, `src/game.rs`, `src/messages.rs`: the data the logic reads
  and changes.
- `src/contracts.rs`: offers, answers and shared contract arithmetic.
- `src/staff_ops.rs`: hiring, severance, release.
- `src/staff_contracts.rs`: renewal talks with staff.
- `src/delegated_renewals.rs`: renewals by the assistant manager.
- `app/`: the floating-point wage scaling, which Verus does not reason about;
  it asks the library which factors apply and how to round.
- `tests/`: tests on concrete values.

Wages that the game scales in floating point, the board's wage policy and the
club's wage bills are inputs of the verified functions.
