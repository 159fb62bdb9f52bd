# dataplane_sdk

The core of a data-plane SDK, verified with Verus.

- `src/model`: control planes, data addresses (with `get_property`) and data-flow states.
- `src/db`: the `ControlPlaneRepo` trait and the in-memory repository, whose store is
  modelled as a map from id to control plane; the laws of that store (a read gives back
  what a create stored, the first create of an id wins) are proof functions there.
- `src/postgres`: the row type of the `control_planes` table and what the outcomes of
  its insert and select mean for the caller.
- `app/`: serde and builder copies of the model types, the data-flow record, and the
  async repositories that run the SQL and share the in-memory store.
