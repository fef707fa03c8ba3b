# ffmpeg_autoencoder

An FFmpeg/x265 encoding front end whose decision logic is written in Verus
and proved against its contracts.

- `src/` is the verified library: configuration profiles and their x265
  parameter maps, HDR / HDR10+ / Dolby Vision metadata handling, filter
  chains, stream selection and mapping, FFmpeg / dovi_tool / hdr10plus_tool /
  mkvmerge command lines, progress reports, profile selection and the
  outcomes of a run. Calls into `regex`, `uuid` and `std::path` go through
  small trusted wrappers whose contracts name their results.
- Maps keyed by text (x265 parameters, encoding, stream-selection and
  preview profiles) are held as vectors of entries with the invariant that
  no key occurs twice, modelled as sequences of pairs. vstd's `HashMap`
  specifications prove little about lookups under `String` keys.
- ffprobe's JSON report is read in `app/` into plain values (stream and
  chapter fields as ffprobe gives them); numbering, defaults and
  disposition flags are decided in `src/stream/probe.rs`.
- `app/` is the `ffmpeg-encoder` program: clap arguments, the YAML
  configuration (serde), running ffprobe/FFmpeg and the metadata tools,
  the progress bar, and the floating-point parts (CRF and bitrate
  adjustments, times in seconds).
- `tests/` runs the library on concrete values.
