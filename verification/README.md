# tracing_etw

The decisions of a `tracing` layer that writes spans and events to ETW
providers on Windows and to EventHeader providers (user events) on Linux.

- `src/` is the library. Every function but the four named below has a contract
  that Verus proves.
  - `guid`: provider identifiers, and how one is derived from a name.
  - `layer`: the configuration, its check, and the registration of the provider.
  - `activity`: the 16 bytes that tie records of a span together.
  - `event`: what is written for an event.
  - `names`, `slots`: the order of field names and the index table of a span.
  - `span`: what is kept with a span, and the records of its start and stop.
  - `laws`: what holds of the layer as a whole.
- `app/` is the `tracing_subscriber` layer around the library. It is generic over
  a `Backend`, which writes records on one platform. The feature `global_filter`
  lets the provider's filter decide for the whole subscriber, and `unsafe` selects
  named slots.
- `tests/` runs the library.

Four private functions each call other code, and their contracts are taken on
trust:

- `name_hash_bytes` calls `tracelogging::Guid::from_name`.
- `null_bytes` calls `tracelogging::Guid::zero`.
- `valid_option_value` calls
  `eventheader_dynamic::ProviderOptions::is_valid_option_value`.
- `elements_mut` calls `AsMut::as_mut` of std's `Vec`.
