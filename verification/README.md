# ccextractor

The command-line driver of CCExtractor, with its decisions verified by Verus.

`src/` holds the driver's logic as a verified library:

- `teletext`: the teletext page selected by the user, converted to the
  binary-coded decimal form of magazine page numbers.
- `session`: the per-run state machine: what each input stream format asks of
  the processing loops, how the loops' results combine into the run's result,
  the closing messages and the exit status; checks on the XDS option, the
  total input size and MP4 inputs.
- `timing`: the end-of-input timing update of each caption decoder, its PTS
  range and the GOP times.
- `report`: the end-of-run summary of each caption decoder.
- `startup`: what the parser's return code means, and the checks on the
  command-line arguments handed to C.

`app/main.rs` is the program: it calls CCExtractor's C library (through its
`cc_extractor_sys` bindings) for parsing, demuxing and decoding, computes the
durations that depend on the floating-point frame rate, and prints.
