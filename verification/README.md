# sams

The Semantic Atom Management Stack as a verified library: a fixed 32-byte
telemetry record (`SemanticAtom`), its little-endian wire encoding, batch
encoding, anonymization and value obfuscation, HMAC-SHA256 signing and
protected packets, fixed-point and time helpers, and atom validation.

- `src/` is the library, checked by Verus: public functions carry contracts
  (the microsecond clock reader and the constructors of field-less types have
  nothing to state; the millisecond reader states its bound), and the laws (encoding round trips, protected-packet round
  trip, anonymization properties, conversion round trips) are proof functions.
- `app/` is the platform layer: floating-point conversions (including reading
  number text as a float), statistics,
  differential privacy, serde records, displayable errors and the async
  Zenoh transport.
- `tests/` exercises the library on concrete values.
