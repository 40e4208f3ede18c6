# tokimo_client_api

Verified core of a client library for download managers (qBittorrent,
Transmission, Aria2, Deluge, rTorrent, 115 Pan, Xunlei) and music metadata
services (Netease, QQ Music, LRCLIB).

- `src/` is the library, verified with Verus: response decoding, request
  building, the rTorrent XML-RPC reader, LRC lyrics reading, the provider
  registry, result merging and match scoring. Every public function states
  what it returns in `ensures`; the laws that span functions are public
  proof functions (`lemma_*`).
- `app/` is the asynchronous front end: HTTP, JSON, and the figures that
  are floating point (progress, ratio). It hands plain values to the library.
- `tests/` runs the library on concrete inputs.
