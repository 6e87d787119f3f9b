# armature_siem

Enterprise SIEM integration: a normalized security event model, the
configuration of a SIEM client, the CEF / LEEF / RFC 5424 syslog / JSON /
Elastic Common Schema wire formats, and the decisions a client makes when
it sends events (authorization headers, Azure Sentinel `SharedKey`
signing, request bodies, response handling, retries with exponential
backoff, batching).

The library under `src/` is written in Verus. Every formatter states the
exact text it produces as a specification function, and the laws that
readers of the formats rely on are proved:

- `text`: escaping is character-wise; a reader decoding backslash escapes
  gets CEF extension and syslog parameter values back exactly; separators
  never appear unescaped; CEF and LEEF values never contain line breaks;
  a JSON string holds no raw line break and reads back to what was written.
- `metadata`: reading a key after an insert gives the inserted value;
  inserting twice keeps the second value; inserts under different keys
  commute, so output never depends on the order metadata was added.
- `format::cef`: every metadata entry gets its own custom slot or goes to
  the overflow object, never both and never lost.
- `format::syslog`: the PRI value splits back into facility and severity.
- `event`: the CEF and syslog severity scales follow the severity order.
- `client`: backoff never shrinks between attempts; a batch never holds
  its capacity between calls.

Module layout:

- `config`, `provider`: configuration, its builder and validation, and the
  provider presets.
- `event`, `metadata`, `time`: the event model.
- `audit`: audit-log records and their conversion into SIEM events.
- `format`: the five wire formats and the `EventFormatter` trait.
- `transport`: authorization, request preparation, response
  classification, TLS server names.
- `client`: retry policy and batching.
- `codec`, `text`: base64, HMAC-SHA256, gzip; escaping and decimal text.

`app/` holds the networking around the library: the HTTPS, TCP/TLS, UDP
and in-memory transports, and the asynchronous client that runs the retry
loop and the background batch flush.
