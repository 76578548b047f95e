# plato_forge_pipeline

A staged pipeline that turns seed documents into scored, tiered tiles:

    EXTRACT → VALIDATE → SCORE → TIER → COMMIT

The library under `src/` is written in Verus. Every stage states in its
contract exactly what it returns, as a function of mathematical views
(`TileView`, `SeedView`), and `src/laws.rs` proves properties that span the
stages: validation splits its input, nothing extracted is lost, produced
tiles are valid, tiered and scored within the unit interval, tiering is
monotone in the belief score and idempotent, and the tier distribution
counts every produced tile once.

Scores and weights are fixed point: an `i64` counts millionths, so
`SCORE_SCALE` (1 000 000) stands for 1.0. The compression ratio is given in
thousandths (`compression_ratio_milli`) next to the byte totals it is
computed from.

Layout:

- `src/tile.rs` — tiles, seeds, tiers and their views
- `src/ids.rs` — congruential and clock-based identifiers
- `src/text.rs` — whitespace, word counts, UTF-8 length, decimal rendering
- `src/fixed.rs` — fixed-point helpers
- `src/stage.rs` and one file per stage
- `src/pipeline.rs` — the orchestrator
- `src/laws.rs` — cross-stage properties
- `app/main.rs` — a small program that runs the pipeline and prints a summary
