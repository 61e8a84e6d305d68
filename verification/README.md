# arkode_rs

The configuration, bookkeeping and solver-interface logic of the ARKODE
integrators (LSRKStep, MRIStep, the ARKLS linear solver interface, dense-output
interpolation modules), written in Verus with contracts proved for every
function.

* `src/` — the verified library.  Real-valued parameters are exact decimals
  (`decimal.rs`); coupling tables are described by their dimensions, groups and
  the structural facts about their coefficients that the checks read
  (`mri.rs`); MRIStep's own optional inputs are in `mri_io.rs`, and the
  per-stage decisions of MRI-GARK, MERK and MRI-SR steps in `mri_stage.rs`.  `properties.rs`,
  `release.rs` and the `lemma_*` functions state the laws that relate several
  operations.
* `tests/` — scenario tests of the library.
* `app/` — the real-valued side: coupling tables with their coefficients and the
  facts derived from them, the built-in tables, error weights, report
  formatting, and setters that take doubles.
