# meetily_diarization

Offline speaker diarization support for meeting transcripts, written in Verus.

`src/` is the verified library:

- `attribution` — picks, for a transcript time range, the diarized speaker
  cluster with the greatest cumulative overlap (ties to the smaller index).
- `assignment` — turns a diarization result into new speaker keys for the
  stored transcript segments, leaving `mic` segments and untimed segments alone,
  and counts the distinct speakers.
- `speaker_key` — the `speaker_NN` key format, proved injective.
- `jobs` — the registry of meetings with a running diarization job (duplicate
  requests are refused), the reported job stages and the run preconditions.
- `models`, `paths`, `download` — model readiness from file sizes, model file
  locations, the download plan, progress reporting and completeness of a download.
- `speakers` — named speakers and display-name validation.
- `catalog` — the Whisper model catalog (file names follow `ggml-<name>.bin`,
  names are unique) and default model names.
- `threads` — the inference thread budget (half the logical cores, at least one).
- `laws` — properties that relate several of the above.

`app/` holds the desktop side that cannot be verified: Tauri commands, the
sherpa-onnx engine, HTTP downloads, archive extraction, SQLite queries and the
floating-point conversions of times and percentages.
