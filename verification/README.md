# Sentiric AI pipeline SDK

The orchestration of a spoken conversation over three services: a speech recogniser (STT), a dialog
service and a speech service (TTS). The library decides; the async code around it performs.

Every decision is a function with a contract that Verus proves:

- `session`: where input goes, when what is being said is cut, what is reported, which task starts;
- `hearing`: which messages of the recogniser are mere fillers, and when a mood has changed;
- `dialog`: one turn with the dialog service, whose answer leaves as whole sentences or as a chat text;
- `speech`: one spoken sentence and its audio;
- `clients`: which addresses are admitted, and the identity for mutual TLS;
- `metadata`: the `x-trace-id`, `x-span-id` and `x-tenant-id` tags of every request;
- `orchestrator`: the channels with their configuration;
- `config`, `event`, `error`, `score`, `text`: what these speak of.

The functions named `lemma_..` that are public state what holds of the library as a whole: that
nothing of an answer is lost or repeated on its way to the voice, that nothing started before a cut
goes on after it, that every channel is encrypted for both sides.

Two rules hold throughout. A connection that is not encrypted is refused: there is no fallback to
HTTP. And no function panics on the inputs that its contract admits.

Single-precision numbers are held by their bit patterns (`score`); the two differences that a change
of mood is reported with are subtracted by the caller.

`app/` holds the async driver: it reads the TLS files, opens the streams, and hands every event to the
library. Its `gateway` module needs the generated clients of `sentiric_contracts`.
