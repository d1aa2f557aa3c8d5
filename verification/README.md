# mews_federation

ActivityPub federation for MewsFeed, a Holochain microblogging app, with
its logic verified by Verus.

## Layout

- `src/` — the verified library.
  - `hashes.rs`: action hashes, agent keys, link targets and timestamps as
    byte strings with their type prefix as an invariant.
  - `entries.rs`: the DHT entries (instance config, federation state,
    remote actors, follows, followers, interactions) and the link types.
  - `shard.rs`: which anchor texts `Path::from` can build: a part written
    `width:depth#…` whose sizes overflow `u32` is refused.
  - `anchors.rs`: the anchor paths that index entries and make creation
    idempotent.
  - `zome_io.rs`: what the coordinator zome reads (records, link targets)
    and the write plans it hands to the host.
  - `coordinator.rs`: every coordinator extern as a function from what was
    read to what is answered or written.
  - `validation.rs`: the integrity zome's validation rules.
  - `s2s.rs`: the server-to-server bridge: handles and domains from URIs,
    actor, WebFinger and outbox documents, and the inbox's decisions.
  - `dht_model.rs`: a model of the DHT, giving the write plans an effect;
    an update moves the index links to the new version.
  - `laws.rs`: properties of the library as a whole (idempotent creation,
    read-after-write and read-after-update, deletion, disjoint anchors,
    handle shape).
- `tests/` — tests run against the compiled library.
- `app/` — the zome externs, the conductor client, key storage and the
  serde copies of the library's types: the host calls and I/O around the
  verified decisions.
