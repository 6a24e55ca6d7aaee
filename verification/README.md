# temporal

Type-safe helpers for Temporal workflows, activities, workers and clients.

The crate is split in two:

- `src/` is a library verified with Verus. It holds everything that decides
  something: worker options and the `TEMPORAL_*` environment variables
  (`worker`), start / signal / signal-with-start / update options and the
  requests built from them, the decoding of workflow and update results
  (`client`), timer options and the decoding of signal inputs, workflow inputs
  and activity outputs (`workflow`), the exactly-one-payload rule shared by all
  decoders (`decode`), and decimal rendering and parsing of counts (`text`).
  Each public function states its result in its contract; the laws that relate
  several functions are proof functions next to them.
- `app/` is the asynchronous layer over the Temporal SDK: connecting clients
  and workers, performing the RPCs, registering workflows and activities,
  serializing typed values to JSON payloads, and converting between the SDK's
  types and the library's.

Payloads and deserializers are type parameters of the library, so the
decoders are verified for every deserializer the caller passes in.
