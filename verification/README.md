# static_feeds

A small service that gives static sites something live to show: the tracks that a
Spotify account played last, the movies that a Letterboxd account watched last, and
the URLs that were recorded last.

- `src/` is the library. It holds everything the service decides, as functions from
  plain values to plain values, verified by Verus. Whatever needs the network is a
  step function: it takes what happened last and says what is to be done next.
  - `letterboxd/`: reading a feed, one movie per film, most recent first, the cache
    and the redirects.
  - `spotify/`: tokens, the listening history, genres and their filter, the caches,
    and the health check.
  - `aggregator`, `url_handlers`, `auth`, `query`, `reply`: requests and answers.
  - `config`, `startup`: settings.
  - `text`, `redirect`, `clock`: what the others rest on.
- `app/` sends the requests, reads the clock, the files and the environment, and
  turns JSON into values and back.
- `tests/` runs the library.

## Endpoints

All but `/aggregated` want `Authorization: Bearer <API_KEY>`, and every answer is sent
with `Cache-Control: no-store`.

| Endpoint | Answer |
| --- | --- |
| `POST /url-webhook` | records the URL in the body |
| `GET /url-webhook` | the last five URLs |
| `GET /letterboxd?feed_url=&no_cache=` | the watched movies |
| `GET /spotify?limit=&no_cache=` | the recently played tracks, five by default |
| `GET /spotify/diagnose` | a report on every stage of the Spotify pipeline |
| `GET /aggregated?feed_url=&limit=&no_cache=` | all of it, with an `errors` object where a source failed |
