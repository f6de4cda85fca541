# penguin

The verified core of the penguin daemon and its command-line client.

- `src/` is the library, which Verus verifies against the contracts in it;
  calls into outside crates stand behind trusted items whose doc comments say
  what is believed of them.
- `app/` is the code around it: files, sockets, terminals, signals and
  subscribers. It does what the library decides and reports back.
- `tests/` runs the library with the real outside crates.

| module | what it holds |
| --- | --- |
| `secrets` | the encrypted-file secret store and atomic file replacement |
| `otel` | configuration and pipeline of OTLP export |
| `metadata`, `kv` | exporter headers and `key=value` lists |
| `telemetry`, `duration`, `logging` | log levels, metrics, log lines |
| `cli` | what the client does next |
| `daemon_main` | how the daemon starts and stops |
| `paths`, `text` | byte paths and strings |
