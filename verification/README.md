# mod_oud

The decision logic of a Discord moderation bot, written in Verus and verified:
every public function states in its contract what it returns, and the
properties that span several functions are proved as `law_*` proof functions.

- `src/music` — the per-guild player (queue, history, seeking, play timer),
  timestamps, YouTube/Spotify link handling, the dashboard control protocol and
  shard ownership, playback statistics buffering, the live-stream resolver.
- `src/moderation` — role hierarchy rules, channel lockdowns and their exact
  restoration, audit-log synchronisation, stored intervals, placeholders and
  duration texts, category deletion.
- `src/media_only` — which messages break a media-only rule, the replies sent,
  the stored form of a rule.
- `src/member_counter` — member statistics, counter channel names, update
  scheduling and counter setup.
- `src/message_logging` — which deletions and edits are logged, what is
  recorded, who deleted a message, the live-feed payloads.
- `src/live_feed` — routing of live-feed events to dashboard subscribers.
- `src/text` — verified string helpers (search, split, replace, trim,
  decimal numbers).
- `app/` — JSON forms of the wire types and parsing of incoming messages.

Calls into `duration-str`, `humantime`, `chrono`, `rand` and a few std
functions go through small trusted wrappers whose contracts are documented
next to them.
