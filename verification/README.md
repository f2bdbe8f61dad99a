# grapheme_machine

A verified, streaming detector of extended grapheme cluster boundaries
(UAX #29). A `GraphemeMachine` is fed the `CharProperties` of one character
at a time and answers `Split` or `Continue` for each.

- `src/properties.rs`: the property values and their packed pair.
- `src/state.rs`: the state machine's transition function.
- `src/rules.rs`: the boundary rules of UAX #29 stated over whole sequences.
- `src/laws.rs`: proofs relating calls, chief among them that the machine
  finds the boundaries the rules define.
- `src/lib.rs`: `GraphemeMachine` and `ClusterAction`.
