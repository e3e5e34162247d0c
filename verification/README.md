# oxhidifi

Verified core of a hi-fi music player for the desktop: the rules behind its
library catalog and its window.

- `src/` — the library, proved with Verus:
  - `text` — decimal rendering, joining, trimming, splitting and integer
    parsing over character sequences;
  - `storage` — catalog records, album format summaries (`FLAC 24/96`),
    sort criteria, queue appends, library directory rules, and the
    debounced settings writer;
  - `ui` — DR badges, cover art, empty and search states, Hi-Fi metadata
    labels, sort lists, navigation between pages, view switching, the
    deferred sidebar collapse and the player bar texts.
- `app/` — the runtime around it: JSON settings files, the SQLite catalog,
  the settings write loop, and named worker threads.
- `tests/` — executable checks of the library on concrete values.
