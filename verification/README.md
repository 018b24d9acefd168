# odt2pdf

A REST service that converts uploaded ODT documents to PDF with LibreOffice.

- `src/` is the verified library: the configuration text and its settings,
  the upload checks (extension, detected MIME type, SHA-1 sum), the
  required-parameter rule, the conversion command and what follows a
  conversion, log levels and log lines, and the text operations they rest on.
  Digests come from `rust-crypto` and configuration parsing from `config`,
  behind trusted wrappers.
- `app/` is the server: iron routing and middleware, file and process I/O,
  command-line options and the global logger.
- `tests/` runs the library on concrete values.
