# Objective-C object references

Reference-counted references to Objective-C objects, verified with Verus.

- `src/id.rs`: `Id<T, O>` / `ShareId<T>`, a non-null reference to an object by
  address, with its constructors, `share`, `clone` (for shared references) and
  `release`. Each operation that messages the object appends the `retain` or
  `release` to an outbox (`Vec<RcMessage>`).
- `src/id_vector.rs`: `IdVector::as_refs_slice` and `IntoIdVector::into_id_vec`.
- `src/message.rs`: `RcMessage` and `net_retains`, what a log of messages does to
  an object's retain count.
- `src/laws.rs`: the retain/release balance laws.
- `src/ownership.rs`: the `Owned` / `Shared` markers.
- `app/lib.rs`: `ObjcId`, which delivers the messages to the Objective-C runtime,
  releases on drop and dereferences to the object.
