# homage

The rules of *Homage*, a team space-combat game with an economy, written in
Verus and proved against their contracts: the fitting catalog and where each
fitting is stocked, hull classes and purchases, banks and points, team
balancing, respawn and docking decisions, combat and mothership damage,
weapon cadence with input buffering, the match lifecycle, the spawn screen's
decisions, and the scoreboard.

- `src/` — the verified library. Each module states its rules as spec
  functions and proves the executable code against them; the laws that span
  several calls (team balance, honest purchases, unlock idempotence, loadout
  validation as a projection, firing cadence, docking round trips) are
  public proof functions.
- `tests/` — gameplay scenarios driven through the rules, and exact values
  of every formula and outcome.
- `app/` — what stays outside the proofs: the serde wire types, the
  floating-point flight model and hit geometry, and the client's command
  line.
