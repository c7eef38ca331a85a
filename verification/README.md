# astra_emu_cmvs

Verified readers and state logic for two visual-novel engine families.

`src/` is the library, written in Verus; every function in it is proved
against its contract, apart from the trusted wrappers named below:

- `cpz`, `scheme`, `cmvs_md5`: CPZ archive headers, the CPZ5 index and
  entry ciphers, the per-title key profile and the engine's MD5 variants.
- `ps2a`: PS2A script headers, LZSS payloads, string pools and the
  framing of instructions and expressions.
- `pb`, `jbp`, `mgv`: PB2/PB3 images, the JBP (JPEG-like) decoder and
  MGV1 movie containers.
- `command`, `vm`, `input`, `scene`, `session`: the PS2A command
  contract table, interpreter memory and per-frame script tables, the
  confirm button, stage layer geometry and the session clock.
- `archive`, `vfs`, `mount`, `sorted_names`, `audio`, `family`,
  `profile`: script-call name resolution, resource classification,
  directory listings and stats of the mounted archive, the mount plan
  (request and source checks, entry numbering and URIs, duplicate URIs,
  ids and loose roles, the entry and role limits) and the manifest it
  publishes, audio payload selection, the probe's archive recognition and
  session numbering, and the local game profile.
- `artemis`: the Artemis adapter's input mapping, host-event framing,
  media command kinds, voice table, base archive choice and session
  numbering.
- `text`, `bytes`, `bits`, `scan`, `error`: shared helpers and
  diagnostics.

Calls into `encoding_rs`, `sha2` and `md-5`, and std's `String::push`
(`push_char`), go through small trusted wrappers in `src/text.rs`, each
documented with what its contract claims.

`app/` holds the host-side glue that Verus does not see: serde copies of
record types, conversion to `image` buffers and file-name extraction.
`tests/` runs the library on concrete inputs.
